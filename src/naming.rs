//! Transcoding between `{scope, name}` and the flattened identifier used by the
//! npm-compatible surface of the registry: `@<provider>/<scope>__<name>`.
use vstd::prelude::*;
use crate::error::NpmCompParseError;

verus! {

/// Whether the two-character separator `__` starts at position `i` of `s`.
pub open spec fn sep_at(s: Seq<char>, i: int) -> bool {
    0 <= i && i + 1 < s.len() && s[i] == '_' && s[i + 1] == '_'
}

/// Whether `s` holds the separator `__` anywhere.
pub open spec fn has_sep(s: Seq<char>) -> bool {
    exists|i: int| sep_at(s, i)
}

/// The pieces of `s` from `start` on, cut at each separator met while scanning
/// left to right from position `i`; a separator that was cut resumes the scan after it.
pub open spec fn split_from(s: Seq<char>, start: int, i: int) -> Seq<Seq<char>>
    decreases s.len() - i,
{
    if i + 1 >= s.len() {
        seq![s.subrange(start, s.len() as int)]
    } else if sep_at(s, i) {
        seq![s.subrange(start, i)] + split_from(s, i + 2, i + 2)
    } else {
        split_from(s, start, i + 1)
    }
}

/// The pieces of `s` between non-overlapping separators, as `str::split("__")` yields them.
pub open spec fn split_sep(s: Seq<char>) -> Seq<Seq<char>> {
    split_from(s, 0, 0)
}

/// `@<provider>/`
pub open spec fn npm_comp_prefix(provider: Seq<char>) -> Seq<char> {
    seq!['@'] + provider + seq!['/']
}

/// `@<provider>/<scope>__<name>`
pub open spec fn encode_npm_comp_name(provider: Seq<char>, scope: Seq<char>, name: Seq<char>) -> Seq<char> {
    npm_comp_prefix(provider) + scope + seq!['_', '_'] + name
}

/// What decoding an npm-compatible identifier gives: the scope and the name, or
/// which of the two errors.
pub enum NameDecoding {
    Decoded(Seq<char>, Seq<char>),
    PrefixMismatch,
    FormatError,
}

pub open spec fn decode_npm_comp_name(provider: Seq<char>, value: Seq<char>) -> NameDecoding {
    let prefix = npm_comp_prefix(provider);
    if !(prefix.len() <= value.len() && value.subrange(0, prefix.len() as int) == prefix) {
        NameDecoding::PrefixMismatch
    } else {
        let parts = split_sep(value.subrange(prefix.len() as int, value.len() as int));
        if parts.len() == 2 && parts[0].len() > 0 && parts[1].len() > 0 {
            NameDecoding::Decoded(parts[0], parts[1])
        } else {
            NameDecoding::FormatError
        }
    }
}

/// The view of an exec decoding result in terms of [`NameDecoding`].
pub open spec fn decoding_of(r: Result<(String, String), NpmCompParseError>) -> NameDecoding {
    match r {
        Ok((s, n)) => NameDecoding::Decoded(s@, n@),
        Err(NpmCompParseError::PrefixMismatch(_)) => NameDecoding::PrefixMismatch,
        Err(NpmCompParseError::FormatError) => NameDecoding::FormatError,
    }
}

/// Scanning over a stretch that holds no separator leaves the pieces unchanged.
proof fn lemma_split_skip(s: Seq<char>, start: int, i: int, k: int)
    requires
        0 <= start <= i <= k <= s.len(),
        forall|m: int| i <= m < k ==> !sep_at(s, m),
    ensures
        split_from(s, start, i) == split_from(s, start, k),
    decreases k - i,
{
    if i < k && i + 1 < s.len() {
        assert(!sep_at(s, i));
        lemma_split_skip(s, start, i + 1, k);
    }
}

/// Decoding an encoded identifier gives back its scope and name, provided both
/// are non-empty, neither holds `__`, and the scope does not end in `_` (else
/// the first separator found would begin inside the scope).
pub proof fn lemma_npm_comp_name_round_trip(provider: Seq<char>, scope: Seq<char>, name: Seq<char>)
    requires
        scope.len() > 0,
        name.len() > 0,
        !has_sep(scope),
        !has_sep(name),
        scope.last() != '_',
    ensures
        decode_npm_comp_name(provider, encode_npm_comp_name(provider, scope, name))
            == NameDecoding::Decoded(scope, name),
{
    let v = encode_npm_comp_name(provider, scope, name);
    let prefix = npm_comp_prefix(provider);
    let rest = v.subrange(prefix.len() as int, v.len() as int);
    let a = scope.len() as int;
    assert(v.subrange(0, prefix.len() as int) =~= prefix);
    assert(rest =~= scope + seq!['_', '_'] + name);
    assert forall|m: int| 0 <= m < a implies !sep_at(rest, m) by {
        if m + 1 < a {
            assert(rest[m] == scope[m] && rest[m + 1] == scope[m + 1]);
            if sep_at(rest, m) {
                assert(sep_at(scope, m));
            }
        } else {
            assert(rest[m] == scope.last());
        }
    }
    lemma_split_skip(rest, 0, 0, a);
    assert(sep_at(rest, a));
    assert(split_from(rest, 0, a) == seq![rest.subrange(0, a)] + split_from(rest, a + 2, a + 2));
    assert forall|m: int| a + 2 <= m < rest.len() implies !sep_at(rest, m) by {
        if m + 1 < rest.len() {
            assert(rest[m] == name[m - a - 2] && rest[m + 1] == name[m + 1 - a - 2]);
            if sep_at(rest, m) {
                assert(sep_at(name, m - a - 2));
            }
        }
    }
    lemma_split_skip(rest, a + 2, a + 2, rest.len() as int);
    assert(rest.subrange(0, a) =~= scope);
    assert(rest.subrange(a + 2, rest.len() as int) =~= name);
    assert(split_sep(rest) =~= seq![scope, name]);
}

/// Builds `@<provider>/<scope>__<name>`.
pub fn encode_name(provider: &str, scope: &str, name: &str) -> (r: String)
    ensures
        r@ == encode_npm_comp_name(provider@, scope@, name@),
{
    let mut r = String::new();
    r.append("@");
    r.append(provider);
    r.append("/");
    r.append(scope);
    r.append("__");
    r.append(name);
    proof {
        reveal_strlit("@");
        reveal_strlit("/");
        reveal_strlit("__");
        assert(r@ =~= encode_npm_comp_name(provider@, scope@, name@));
    }
    r
}

/// Whether `value` starts with `prefix`, character by character.
pub fn starts_with_chars(value: &str, prefix: &str) -> (r: bool)
    ensures
        r == (prefix@.len() <= value@.len() && value@.subrange(0, prefix@.len() as int) == prefix@),
{
    let plen = prefix.unicode_len();
    let vlen = value.unicode_len();
    if plen > vlen {
        return false;
    }
    let mut i: usize = 0;
    while i < plen
        invariant
            plen == prefix@.len(),
            vlen == value@.len(),
            plen <= vlen,
            i <= plen,
            forall|k: int| 0 <= k < i ==> value@[k] == prefix@[k],
        decreases plen - i,
    {
        if value.get_char(i) != prefix.get_char(i) {
            assert(value@.subrange(0, plen as int)[i as int] != prefix@[i as int]);
            return false;
        }
        i += 1;
    }
    assert(value@.subrange(0, plen as int) =~= prefix@);
    true
}

/// Cuts `s` at each `__`, scanning left to right, as `str::split("__")` does.
pub fn split_on_sep(s: &str) -> (parts: Vec<String>)
    ensures
        parts@.map_values(|p: String| p@) == split_sep(s@),
{
    let n = s.unicode_len();
    let mut parts: Vec<String> = Vec::new();
    let mut start: usize = 0;
    let mut i: usize = 0;
    while n > 0 && i < n - 1
        invariant
            n == s@.len(),
            start <= i <= n,
            parts@.map_values(|p: String| p@) + split_from(s@, start as int, i as int) == split_sep(s@),
        decreases n - i,
    {
        if s.get_char(i) == '_' && s.get_char(i + 1) == '_' {
            let piece = s.substring_char(start, i).to_owned();
            let ghost before = parts@.map_values(|p: String| p@);
            parts.push(piece);
            assert(parts@.map_values(|p: String| p@) =~= before.push(piece@));
            assert(split_from(s@, start as int, i as int) == seq![s@.subrange(start as int, i as int)] + split_from(s@, i + 2, i + 2));
            assert(before + split_from(s@, start as int, i as int) =~= before.push(piece@) + split_from(s@, i + 2, i + 2));
            i = i + 2;
            start = i;
        } else {
            i += 1;
        }
    }
    let piece = s.substring_char(start, n).to_owned();
    let ghost before = parts@.map_values(|p: String| p@);
    parts.push(piece);
    assert(parts@.map_values(|p: String| p@) =~= before.push(piece@));
    assert(before + split_from(s@, start as int, i as int) =~= before.push(piece@));
    parts
}

/// Turns `@<provider>/<scope>__<name>` back into `(scope, name)`.
pub fn decode_name(provider: &str, value: &str) -> (r: Result<(String, String), NpmCompParseError>)
    ensures
        decoding_of(r) == decode_npm_comp_name(provider@, value@),
        r matches Err(NpmCompParseError::PrefixMismatch(p)) ==> p@ == provider@,
{
    let mut prefix = String::new();
    prefix.append("@");
    prefix.append(provider);
    prefix.append("/");
    proof {
        reveal_strlit("@");
        reveal_strlit("/");
        assert(prefix@ =~= npm_comp_prefix(provider@));
    }
    if !starts_with_chars(value, prefix.as_str()) {
        return Err(NpmCompParseError::PrefixMismatch(provider.to_owned()));
    }
    let rest = value.substring_char(prefix.as_str().unicode_len(), value.unicode_len());
    let parts = split_on_sep(rest);
    let ghost views = parts@.map_values(|p: String| p@);
    assert(parts.len() == views.len());
    if parts.len() != 2 {
        return Err(NpmCompParseError::FormatError);
    }
    assert(views[0] == parts@[0]@ && views[1] == parts@[1]@);
    if parts[0].as_str().is_empty() || parts[1].as_str().is_empty() {
        return Err(NpmCompParseError::FormatError);
    }
    Ok((parts[0].clone(), parts[1].clone()))
}

} // verus!
