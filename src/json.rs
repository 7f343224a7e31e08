//! A JSON document as a tree of plain values, read from text by `serde_json`.
use vstd::prelude::*;
use crate::error::DecodeError;
use crate::text::chars_eq;

verus! {

/// A JSON value. Numbers are held as the text `serde_json` writes for them;
/// object members are listed in the order the parser gives them, which for
/// `serde_json` is the order of their names.
#[derive(Debug)]
pub enum Json {
    Null,
    Bool(bool),
    Number(String),
    Str(String),
    Array(Vec<Json>),
    Object(Vec<(String, Json)>),
}

/// The mathematical value of a [`Json`].
pub enum JsonView {
    Null,
    Bool(bool),
    Number(Seq<char>),
    Str(Seq<char>),
    Array(Seq<JsonView>),
    Object(Seq<Seq<char>>, Seq<JsonView>),
}

impl View for Json {
    type V = JsonView;

    open spec fn view(&self) -> JsonView
        decreases self,
    {
        match self {
            Json::Null => JsonView::Null,
            Json::Bool(b) => JsonView::Bool(*b),
            Json::Number(n) => JsonView::Number(n@),
            Json::Str(s) => JsonView::Str(s@),
            Json::Array(items) => JsonView::Array(
                Seq::new(items@.len(), |i: int|
                    if 0 <= i < items@.len() { items@[i].view() } else { JsonView::Null }),
            ),
            Json::Object(members) => JsonView::Object(
                Seq::new(members@.len(), |i: int|
                    if 0 <= i < members@.len() { members@[i].0@ } else { Seq::empty() }),
                Seq::new(members@.len(), |i: int|
                    if 0 <= i < members@.len() { members@[i].1.view() } else { JsonView::Null }),
            ),
        }
    }
}

#[verifier::external_type_specification]
#[verifier::external_body]
pub struct ExJsonValue(serde_json::Value);

/// The tree that `serde_json` reads from a text; `None` where the text is not JSON.
pub uninterp spec fn json_parse(text: Seq<char>) -> Option<JsonView>;

/// Relies on `serde_json::from_str` into a `serde_json::Value`, then moves that
/// value into a [`Json`] node for node.
#[verifier::external_body]
fn parse_json(text: &str) -> (r: Option<Json>)
    ensures
        r matches Some(j) ==> json_parse(text@) == Some(j@),
        r is None ==> json_parse(text@) is None,
{
    serde_json::from_str::<serde_json::Value>(text).ok().map(json_from_serde)
}

/// Moves a `serde_json::Value` into a [`Json`]: one node for each node, numbers
/// as the text of their `Display`.
#[verifier::external_body]
fn json_from_serde(v: serde_json::Value) -> Json {
    match v {
        serde_json::Value::Null => Json::Null,
        serde_json::Value::Bool(b) => Json::Bool(b),
        serde_json::Value::Number(n) => Json::Number(n.to_string()),
        serde_json::Value::String(s) => Json::Str(s),
        serde_json::Value::Array(a) => Json::Array(a.into_iter().map(json_from_serde).collect()),
        serde_json::Value::Object(o) => Json::Object(o.into_iter().map(|(k, x)| (k, json_from_serde(x))).collect()),
    }
}

/// The value of the first member named `key` at or after position `i`.
pub open spec fn member_from(keys: Seq<Seq<char>>, values: Seq<JsonView>, key: Seq<char>, i: int) -> Option<JsonView>
    decreases keys.len() - i,
{
    if i < 0 || i >= keys.len() || i >= values.len() {
        None
    } else if keys[i] == key {
        Some(values[i])
    } else {
        member_from(keys, values, key, i + 1)
    }
}

/// The value of the first member named `key` of an object; `None` where `j` is
/// no object or has no such member.
pub open spec fn member(j: JsonView, key: Seq<char>) -> Option<JsonView> {
    match j {
        JsonView::Object(keys, values) => member_from(keys, values, key, 0),
        _ => None,
    }
}

/// The text of a JSON string.
pub open spec fn str_of(j: JsonView) -> Option<Seq<char>> {
    match j {
        JsonView::Str(s) => Some(s),
        _ => None,
    }
}

/// Whether `s` is a non-empty run of decimal digits.
pub open spec fn is_digits(s: Seq<char>) -> bool {
    s.len() > 0 && forall|i: int| 0 <= i < s.len() ==> '0' <= #[trigger] s[i] <= '9'
}

/// The number that a run of decimal digits stands for.
pub open spec fn digits_value(s: Seq<char>) -> int
    decreases s.len(),
{
    if s.len() == 0 {
        0
    } else {
        digits_value(s.drop_last()) * 10 + (s.last() as int - 48)
    }
}

/// The non-negative integer at most `max` that a JSON number stands for.
pub open spec fn uint_of(j: JsonView, max: int) -> Option<int> {
    match j {
        JsonView::Number(t) => if is_digits(t) && digits_value(t) <= max {
            Some(digits_value(t))
        } else {
            None
        },
        _ => None,
    }
}

/// The text of the string member `key` of an object.
pub open spec fn str_member(j: JsonView, key: Seq<char>) -> Option<Seq<char>> {
    match member(j, key) {
        Some(v) => str_of(v),
        None => None,
    }
}

/// A mismatch reported at member `key`.
pub fn mismatch(key: &str) -> (e: DecodeError)
    ensures
        e is Mismatch,
{
    DecodeError::Mismatch(key.to_owned())
}

/// The first member named `key` of an object; `None` where `j` is no object or
/// has no such member.
pub fn get_member<'a>(j: &'a Json, key: &str) -> (r: Option<&'a Json>)
    ensures
        r matches Some(v) ==> member(j@, key@) == Some(v@),
        r is None ==> member(j@, key@) is None,
{
    match j {
        Json::Object(members) => {
            let ghost keys = j@->Object_0;
            let ghost values = j@->Object_1;
            let mut i: usize = 0;
            while i < members.len()
                invariant
                    *j == Json::Object(*members),
                    keys == j@->Object_0,
                    values == j@->Object_1,
                    i <= members.len(),
                    member_from(keys, values, key@, i as int) == member(j@, key@),
                decreases members.len() - i,
            {
                assert(keys[i as int] == members@[i as int].0@);
                assert(values[i as int] == members@[i as int].1@);
                if chars_eq(members[i].0.as_str(), key) {
                    return Some(&members[i].1);
                }
                i += 1;
            }
            None
        },
        _ => None,
    }
}

/// The text of the string member `key` of an object.
pub fn get_str(j: &Json, key: &str) -> (r: Result<String, DecodeError>)
    ensures
        r matches Ok(s) ==> str_member(j@, key@) == Some(s@),
        r is Err ==> str_member(j@, key@) is None && r->Err_0 is Mismatch,
{
    match get_member(j, key) {
        Some(Json::Str(s)) => Ok(s.clone()),
        _ => Err(mismatch(key)),
    }
}

/// Digits stand for at least as much as any prefix of them.
proof fn lemma_digits_value_grows(s: Seq<char>, i: int)
    requires
        0 <= i <= s.len(),
        forall|k: int| 0 <= k < s.len() ==> '0' <= #[trigger] s[k] <= '9',
    ensures
        digits_value(s.subrange(0, i)) <= digits_value(s),
    decreases s.len() - i,
{
    if i < s.len() {
        let t = s.subrange(0, i + 1);
        assert(t.drop_last() =~= s.subrange(0, i));
        assert(digits_value(t) == digits_value(s.subrange(0, i)) * 10 + (t.last() as int - 48));
        lemma_digits_value_grows(s, i + 1);
        assert(digits_value(s.subrange(0, i)) >= 0) by {
            lemma_digits_value_nonneg(s.subrange(0, i));
        }
    } else {
        assert(s.subrange(0, i) =~= s);
    }
}

proof fn lemma_digits_value_nonneg(s: Seq<char>)
    requires
        forall|k: int| 0 <= k < s.len() ==> '0' <= #[trigger] s[k] <= '9',
    ensures
        digits_value(s) >= 0,
    decreases s.len(),
{
    if s.len() > 0 {
        lemma_digits_value_nonneg(s.drop_last());
    }
}

/// Reads a decimal numeral of at most `max`; `None` where `t` is not a run of
/// digits or stands for more than `max`.
pub fn parse_uint(t: &str, max: u64) -> (r: Option<u64>)
    ensures
        r matches Some(v) ==> is_digits(t@) && digits_value(t@) <= max && v == digits_value(t@),
        r is None ==> !(is_digits(t@) && digits_value(t@) <= max),
{
    let n = t.unicode_len();
    if n == 0 {
        return None;
    }
    let mut i: usize = 0;
    while i < n
        invariant
            n == t@.len(),
            i <= n,
            forall|k: int| 0 <= k < i ==> '0' <= #[trigger] t@[k] <= '9',
        decreases n - i,
    {
        let c = t.get_char(i);
        if !('0' <= c && c <= '9') {
            return None;
        }
        i += 1;
    }
    let mut v: u64 = 0;
    let mut i: usize = 0;
    while i < n
        invariant
            n == t@.len(),
            i <= n,
            forall|k: int| 0 <= k < n ==> '0' <= #[trigger] t@[k] <= '9',
            v == digits_value(t@.subrange(0, i as int)),
            v <= max,
        decreases n - i,
    {
        let c = t.get_char(i);
        let d: u64 = (c as u32 - 48) as u64;
        proof {
            let s1 = t@.subrange(0, i + 1);
            assert(s1.drop_last() =~= t@.subrange(0, i as int));
            assert(digits_value(s1) == v * 10 + d);
        }
        if d > max || v > (max - d) / 10 {
            proof {
                lemma_digits_value_grows(t@, i + 1);
                if d <= max {
                    let q = (max - d) / 10;
                    assert(v * 10 + d > max) by (nonlinear_arith)
                        requires v > q, q == (max - d) / 10, d <= max;
                }
            }
            return None;
        }
        assert(v * 10 + d <= max) by (nonlinear_arith)
            requires v <= (max - d) / 10, d <= max;
        v = v * 10 + d;
        i += 1;
    }
    assert(t@.subrange(0, n as int) =~= t@);
    Some(v)
}

/// The non-negative integer member `key` of an object, at most `max`.
pub open spec fn uint_member(j: JsonView, key: Seq<char>, max: int) -> Option<int> {
    match member(j, key) {
        Some(v) => uint_of(v, max),
        None => None,
    }
}

/// Reads a JSON number that is a non-negative integer of at most `max`.
pub fn json_uint(j: &Json, max: u64) -> (r: Option<u64>)
    ensures
        r matches Some(v) ==> uint_of(j@, max as int) == Some(v as int),
        r is None ==> uint_of(j@, max as int) is None,
{
    match j {
        Json::Number(t) => parse_uint(t.as_str(), max),
        _ => None,
    }
}

/// The integer member `key` of an object, at most `max`.
pub fn get_uint(j: &Json, key: &str, max: u64) -> (r: Result<u64, DecodeError>)
    ensures
        r matches Ok(v) ==> uint_member(j@, key@, max as int) == Some(v as int),
        r is Err ==> uint_member(j@, key@, max as int) is None && r->Err_0 is Mismatch,
{
    match get_member(j, key) {
        Some(v) => match json_uint(v, max) {
            Some(n) => Ok(n),
            None => Err(mismatch(key)),
        },
        None => Err(mismatch(key)),
    }
}

/// A value that can be read from a JSON tree, with what it reads stated over views.
pub trait JsonDecode: Sized + View {
    /// The value that `j` stands for; `None` where it does not have the shape.
    spec fn decoded(j: JsonView) -> Option<<Self as View>::V>;

    fn from_json(j: &Json) -> (r: Result<Self, DecodeError>)
        ensures
            r matches Ok(v) ==> Self::decoded(j@) == Some(v@),
            r is Err ==> Self::decoded(j@) is None && r->Err_0 is Mismatch;
}

/// Whether every value of an object decodes.
pub open spec fn all_decode<T: JsonDecode>(values: Seq<JsonView>) -> bool {
    forall|i: int| 0 <= i < values.len() ==> (#[trigger] T::decoded(values[i])) is Some
}

/// The view of a list of keyed entries.
pub open spec fn pairs_view<K: View, V: View>(v: Seq<(K, V)>) -> Seq<(K::V, V::V)> {
    v.map_values(|e: (K, V)| (e.0@, e.1@))
}

/// The view of a list of named entries.
pub open spec fn named_view<T: View>(v: Seq<(String, T)>) -> Seq<(Seq<char>, T::V)> {
    pairs_view(v)
}

/// No two entries share a key: the list is a map.
pub open spec fn keys_unique<K, V>(m: Seq<(K, V)>) -> bool {
    forall|i: int, j: int| 0 <= i < j < m.len() ==> (#[trigger] m[i]).0 != (#[trigger] m[j]).0
}

/// `m` with key `k` mapped to `v`: the entry with that key is replaced in
/// place, or a new entry is added at the end.
pub open spec fn upsert<K, V>(m: Seq<(K, V)>, k: K, v: V) -> Seq<(K, V)> {
    if exists|i: int| 0 <= i < m.len() && (#[trigger] m[i]).0 == k {
        m.update(choose|i: int| 0 <= i < m.len() && (#[trigger] m[i]).0 == k, (k, v))
    } else {
        m.push((k, v))
    }
}

/// Mapping a key keeps the keys unique.
pub proof fn lemma_upsert_keeps_keys_unique<K, V>(m: Seq<(K, V)>, k: K, v: V)
    requires
        keys_unique(m),
    ensures
        keys_unique(upsert(m, k, v)),
{
    let r = upsert(m, k, v);
    if exists|i: int| 0 <= i < m.len() && (#[trigger] m[i]).0 == k {
        let c = choose|i: int| 0 <= i < m.len() && (#[trigger] m[i]).0 == k;
        assert forall|i: int, j: int| 0 <= i < j < r.len() implies (#[trigger] r[i]).0 != (#[trigger] r[j]).0 by {
            assert(m[i].0 != m[j].0);
            if i == c {
                assert(r[i].0 == m[c].0);
            }
            if j == c {
                assert(r[j].0 == m[c].0);
            }
        }
    } else {
        assert forall|i: int, j: int| 0 <= i < j < r.len() implies (#[trigger] r[i]).0 != (#[trigger] r[j]).0 by {
            if j < m.len() {
                assert(m[i].0 != m[j].0);
            }
        }
    }
}

/// Keys whose equality can be decided.
pub trait KeyEq: View + Sized {
    fn key_eq(&self, other: &Self) -> (r: bool)
        ensures
            r == (self@ == other@);
}

impl KeyEq for String {
    fn key_eq(&self, other: &String) -> (r: bool) {
        self.eq(other)
    }
}

/// Maps `k` to `v` in a list of entries with unique keys.
pub fn upsert_entry<K: KeyEq, V: View>(m: &mut Vec<(K, V)>, k: K, v: V)
    requires
        keys_unique(pairs_view(old(m)@)),
    ensures
        pairs_view(final(m)@) == upsert(pairs_view(old(m)@), k@, v@),
        keys_unique(pairs_view(final(m)@)),
{
    let ghost before = pairs_view(m@);
    proof {
        lemma_upsert_keeps_keys_unique(before, k@, v@);
    }
    let mut i: usize = 0;
    while i < m.len()
        invariant
            before == pairs_view(m@),
            before == pairs_view(old(m)@),
            keys_unique(before),
            i <= m.len(),
            forall|x: int| 0 <= x < i ==> (#[trigger] before[x]).0 != k@,
        decreases m.len() - i,
    {
        if m[i].0.key_eq(&k) {
            proof {
                assert(before[i as int].0 == k@);
                assert(exists|x: int| 0 <= x < before.len() && (#[trigger] before[x]).0 == k@);
                let c = choose|x: int| 0 <= x < before.len() && (#[trigger] before[x]).0 == k@;
                if c != i {
                    if c < i {
                        assert(before[c].0 != k@);
                    } else {
                        assert(before[i as int].0 != before[c].0);
                    }
                }
                assert(c == i);
                assert(upsert(before, k@, v@) == before.update(i as int, (k@, v@)));
            }
            m.set(i, (k, v));
            assert(pairs_view(m@) =~= upsert(before, k@, v@));
            return;
        }
        i += 1;
    }
    m.push((k, v));
    assert(pairs_view(m@) =~= upsert(before, k@, v@));
}

/// The map that the first `n` members of an object give, each value decoded;
/// a later member replaces an earlier one with the same name.
pub open spec fn named_upto<T: JsonDecode>(keys: Seq<Seq<char>>, values: Seq<JsonView>, n: int) -> Seq<(Seq<char>, T::V)>
    decreases n,
{
    if n <= 0 {
        Seq::empty()
    } else {
        upsert(named_upto::<T>(keys, values, n - 1), keys[n - 1], T::decoded(values[n - 1])->0)
    }
}

/// The named entries that an object stands for, each value decoded, no two
/// with the same name; `None` where `j` is no object or a value does not decode.
pub open spec fn named_map_of<T: JsonDecode>(j: JsonView) -> Option<Seq<(Seq<char>, T::V)>> {
    match j {
        JsonView::Object(keys, values) => if keys.len() == values.len() && all_decode::<T>(values) {
            Some(named_upto::<T>(keys, values, values.len() as int))
        } else {
            None
        },
        _ => None,
    }
}

/// Reads an object as named entries, decoding each value.
pub fn named_map<T: JsonDecode>(j: &Json, key: &str) -> (r: Result<Vec<(String, T)>, DecodeError>)
    ensures
        r matches Ok(v) ==> named_map_of::<T>(j@) == Some(named_view(v@)) && keys_unique(named_view(v@)),
        r is Err ==> named_map_of::<T>(j@) is None && r->Err_0 is Mismatch,
{
    match j {
        Json::Object(members) => {
            let ghost keys = j@->Object_0;
            let ghost values = j@->Object_1;
            let mut out: Vec<(String, T)> = Vec::new();
            let mut i: usize = 0;
            while i < members.len()
                invariant
                    *j == Json::Object(*members),
                    keys == j@->Object_0,
                    values == j@->Object_1,
                    keys.len() == members@.len(),
                    values.len() == members@.len(),
                    i <= members.len(),
                    forall|k: int| 0 <= k < i ==> (#[trigger] T::decoded(values[k])) is Some,
                    pairs_view(out@) == named_upto::<T>(keys, values, i as int),
                    keys_unique(pairs_view(out@)),
                decreases members.len() - i,
            {
                assert(keys[i as int] == members@[i as int].0@);
                assert(values[i as int] == members@[i as int].1@);
                match T::from_json(&members[i].1) {
                    Ok(v) => upsert_entry(&mut out, members[i].0.clone(), v),
                    Err(e) => {
                        assert(!all_decode::<T>(values));
                        return Err(e);
                    },
                }
                i += 1;
            }
            Ok(out)
        },
        _ => Err(mismatch(key)),
    }
}

/// The named entries of the object member `key`.
pub open spec fn named_member<T: JsonDecode>(j: JsonView, key: Seq<char>) -> Option<Seq<(Seq<char>, T::V)>> {
    match member(j, key) {
        Some(v) => named_map_of::<T>(v),
        None => None,
    }
}

/// Reads the object member `key` as named entries.
pub fn get_named<T: JsonDecode>(j: &Json, key: &str) -> (r: Result<Vec<(String, T)>, DecodeError>)
    ensures
        r matches Ok(v) ==> named_member::<T>(j@, key@) == Some(named_view(v@)) && keys_unique(named_view(v@)),
        r is Err ==> named_member::<T>(j@, key@) is None && r->Err_0 is Mismatch,
{
    match get_member(j, key) {
        Some(v) => named_map(v, key),
        None => Err(mismatch(key)),
    }
}

impl JsonDecode for Json {
    /// Any JSON value stands for itself.
    open spec fn decoded(j: JsonView) -> Option<JsonView> {
        Some(j)
    }

    fn from_json(j: &Json) -> (r: Result<Json, DecodeError>) {
        Ok(j.deep_clone())
    }
}

impl JsonDecode for String {
    /// A JSON string stands for its text.
    open spec fn decoded(j: JsonView) -> Option<Seq<char>> {
        str_of(j)
    }

    fn from_json(j: &Json) -> (r: Result<String, DecodeError>) {
        match j {
            Json::Str(s) => Ok(s.clone()),
            _ => Err(mismatch("string")),
        }
    }
}

impl Clone for Json {
    fn clone(&self) -> (r: Json)
        ensures
            r@ == self@,
    {
        self.deep_clone()
    }
}

impl PartialEq for Json {
    fn eq(&self, other: &Json) -> (r: bool) {
        self.same(other)
    }
}

impl vstd::std_specs::cmp::PartialEqSpecImpl for Json {
    open spec fn obeys_eq_spec() -> bool {
        true
    }

    open spec fn eq_spec(&self, other: &Json) -> bool {
        self@ == other@
    }
}

impl Eq for Json {}

impl Json {
    /// Whether two trees are equal, node for node.
    pub fn same(&self, other: &Json) -> (r: bool)
        ensures
            r == (self@ == other@),
        decreases self,
    {
        match (self, other) {
            (Json::Null, Json::Null) => true,
            (Json::Bool(a), Json::Bool(b)) => *a == *b,
            (Json::Number(a), Json::Number(b)) => a.eq(b),
            (Json::Str(a), Json::Str(b)) => a.eq(b),
            (Json::Array(a), Json::Array(b)) => {
                if a.len() != b.len() {
                    assert(self@->Array_0.len() != other@->Array_0.len());
                    return false;
                }
                let mut i: usize = 0;
                while i < a.len()
                    invariant
                        *self == Json::Array(*a),
                        *other == Json::Array(*b),
                        a.len() == b.len(),
                        i <= a.len(),
                        forall|k: int| 0 <= k < i ==> (#[trigger] a@[k])@ == b@[k]@,
                    decreases a.len() - i,
                {
                    proof {
                        assert(decreases_to!(*self => self->Array_0));
                        assert(decreases_to!(self->Array_0 => self->Array_0@));
                        assert(decreases_to!(self->Array_0@ => self->Array_0@[i as int]));
                    }
                    if !a[i].same(&b[i]) {
                        assert(self@->Array_0[i as int] != other@->Array_0[i as int]);
                        return false;
                    }
                    i += 1;
                }
                assert(self@->Array_0 =~= other@->Array_0);
                true
            },
            (Json::Object(a), Json::Object(b)) => {
                if a.len() != b.len() {
                    assert(self@->Object_0.len() != other@->Object_0.len());
                    return false;
                }
                let mut i: usize = 0;
                while i < a.len()
                    invariant
                        *self == Json::Object(*a),
                        *other == Json::Object(*b),
                        a.len() == b.len(),
                        i <= a.len(),
                        forall|k: int| 0 <= k < i ==> (#[trigger] a@[k]).0@ == b@[k].0@ && a@[k].1@ == b@[k].1@,
                    decreases a.len() - i,
                {
                    proof {
                        assert(decreases_to!(*self => self->Object_0));
                        assert(decreases_to!(self->Object_0 => self->Object_0@));
                        assert(decreases_to!(self->Object_0@ => self->Object_0@[i as int]));
                        assert(decreases_to!(self->Object_0@[i as int] => self->Object_0@[i as int].1));
                    }
                    if !a[i].0.eq(&b[i].0) {
                        assert(self@->Object_0[i as int] != other@->Object_0[i as int]);
                        return false;
                    }
                    if !a[i].1.same(&b[i].1) {
                        assert(self@->Object_1[i as int] != other@->Object_1[i as int]);
                        return false;
                    }
                    i += 1;
                }
                assert(self@->Object_0 =~= other@->Object_0);
                assert(self@->Object_1 =~= other@->Object_1);
                true
            },
            _ => false,
        }
    }

    /// Reads a JSON text; `None` where it is not JSON.
    pub fn parse(text: &str) -> (r: Option<Json>)
        ensures
            r matches Some(j) ==> json_parse(text@) == Some(j@),
            r is None ==> json_parse(text@) is None,
    {
        parse_json(text)
    }

    /// A copy of the tree.
    pub fn deep_clone(&self) -> (r: Json)
        ensures
            r@ == self@,
        decreases self,
    {
        match self {
            Json::Null => {
                let r = Json::Null;
                assert(r@ == self@);
                r
            },
            Json::Bool(b) => {
                let r = Json::Bool(*b);
                assert(r@ == self@);
                r
            },
            Json::Number(n) => {
                let r = Json::Number(n.clone());
                assert(r@ == self@);
                r
            },
            Json::Str(s) => {
                let r = Json::Str(s.clone());
                assert(r@ == self@);
                r
            },
            Json::Array(items) => {
                let mut out: Vec<Json> = Vec::new();
                let mut i: usize = 0;
                while i < items.len()
                    invariant
                        *self == Json::Array(*items),
                        i <= items.len(),
                        out.len() == i,
                        forall|k: int| 0 <= k < i ==> (#[trigger] out@[k])@ == items@[k]@,
                    decreases items.len() - i,
                {
                    proof {
                        assert(decreases_to!(*self => self->Array_0));
                        assert(decreases_to!(self->Array_0 => self->Array_0@));
                        assert(decreases_to!(self->Array_0@ => self->Array_0@[i as int]));
                    }
                    out.push(items[i].deep_clone());
                    i += 1;
                }
                let r = Json::Array(out);
                assert(r@->Array_0 =~= self@->Array_0);
                r
            },
            Json::Object(members) => {
                let mut out: Vec<(String, Json)> = Vec::new();
                let mut i: usize = 0;
                while i < members.len()
                    invariant
                        *self == Json::Object(*members),
                        i <= members.len(),
                        out.len() == i,
                        forall|k: int| 0 <= k < i ==> (#[trigger] out@[k]).0@ == members@[k].0@ && out@[k].1@ == members@[k].1@,
                    decreases members.len() - i,
                {
                    proof {
                        assert(decreases_to!(*self => self->Object_0));
                        assert(decreases_to!(self->Object_0 => self->Object_0@));
                        assert(decreases_to!(self->Object_0@ => self->Object_0@[i as int]));
                        assert(decreases_to!(self->Object_0@[i as int] => self->Object_0@[i as int].1));
                    }
                    let v = members[i].1.deep_clone();
                    out.push((members[i].0.clone(), v));
                    i += 1;
                }
                let r = Json::Object(out);
                assert(r@->Object_0 =~= self@->Object_0);
                assert(r@->Object_1 =~= self@->Object_1);
                r
            },
        }
    }
}

} // verus!
