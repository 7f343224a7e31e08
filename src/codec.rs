//! Codecs for the version-keyed timestamp map and for the flattened `time`
//! object: `created`, `modified` and one member per published version, side by
//! side in one JSON object.
use vstd::prelude::*;
use crate::error::DecodeError;
use crate::json::{
    get_member, get_str, keys_unique, member, mismatch, pairs_view, str_member, str_of, upsert, upsert_entry, Json,
    JsonDecode, JsonView,
};
use crate::text::{chars_eq, holds_char};
use crate::time::{rfc3339_parse, rfc3339_render, Timestamp};
use crate::version::{semver_parse, semver_text, SemVer, SemVerView};

verus! {

/// Publication instants keyed by version: a map, so no two entries share a
/// version.
#[derive(Debug)]
pub struct VersionDateTimeMap {
    entries: Vec<(SemVer, Timestamp)>,
}

impl View for VersionDateTimeMap {
    type V = Seq<(SemVerView, Timestamp)>;

    closed spec fn view(&self) -> Seq<(SemVerView, Timestamp)> {
        pairs_view(self.entries@)
    }
}

impl Clone for VersionDateTimeMap {
    fn clone(&self) -> (r: VersionDateTimeMap)
        ensures
            r@ == self@,
    {
        proof {
            use_type_invariant(self);
        }
        let mut entries: Vec<(SemVer, Timestamp)> = Vec::new();
        let mut i: usize = 0;
        while i < self.entries.len()
            invariant
                i <= self.entries.len(),
                keys_unique(pairs_view(self.entries@)),
                entries.len() == i,
                pairs_view(entries@) == pairs_view(self.entries@).subrange(0, i as int),
            decreases self.entries.len() - i,
        {
            let e = (self.entries[i].0.clone(), self.entries[i].1);
            let ghost before = entries@;
            entries.push(e);
            assert(entries@ == before.push(e));
            assert(pairs_view(entries@)[i as int] == (e.0@, e.1@));
            assert(pairs_view(self.entries@)[i as int] == (self.entries@[i as int].0@, self.entries@[i as int].1@));
            assert(pairs_view(entries@) =~= pairs_view(self.entries@).subrange(0, i + 1));
            i += 1;
        }
        assert(pairs_view(entries@) =~= pairs_view(self.entries@));
        VersionDateTimeMap { entries }
    }
}

impl VersionDateTimeMap {
    /// No two entries share a version.
    #[verifier::type_invariant]
    closed spec fn inv(&self) -> bool {
        keys_unique(pairs_view(self.entries@))
    }
}

/// The entry that one wire member gives: its name read as a version and its
/// value as an RFC 3339 text. With `skip_fixed`, the members `created` and
/// `modified` give none.
pub open spec fn version_time_entry(key: Seq<char>, value: JsonView, skip_fixed: bool) -> Option<(SemVerView, Timestamp)> {
    if skip_fixed && (key == "created"@ || key == "modified"@) {
        None
    } else if semver_parse(key) is Some && str_of(value) is Some && rfc3339_parse(str_of(value)->0) is Some {
        Some((semver_parse(key)->0, rfc3339_parse(str_of(value)->0)->0))
    } else {
        None
    }
}

/// The map that the first `n` members give; members that give no entry are
/// left out, and a later entry replaces an earlier one with the same version.
pub open spec fn version_times_upto(keys: Seq<Seq<char>>, values: Seq<JsonView>, skip_fixed: bool, n: int) -> Seq<(SemVerView, Timestamp)>
    decreases n,
{
    if n <= 0 {
        Seq::empty()
    } else {
        let prev = version_times_upto(keys, values, skip_fixed, n - 1);
        match version_time_entry(keys[n - 1], values[n - 1], skip_fixed) {
            Some(e) => upsert(prev, e.0, e.1),
            None => prev,
        }
    }
}

/// The version-keyed instants of an object; `None` where `j` is no object.
pub open spec fn version_times_of(j: JsonView, skip_fixed: bool) -> Option<Seq<(SemVerView, Timestamp)>> {
    match j {
        JsonView::Object(keys, values) => Some(version_times_upto(keys, values, skip_fixed, values.len() as int)),
        _ => None,
    }
}

/// The instant that the string member `key` holds as RFC 3339.
pub open spec fn time_member(j: JsonView, key: Seq<char>) -> Option<Timestamp> {
    match str_member(j, key) {
        Some(s) => rfc3339_parse(s),
        None => None,
    }
}

fn version_time_entry_exec(key: &String, value: &Json, skip_fixed: bool) -> (r: Option<(SemVer, Timestamp)>)
    ensures
        r matches Some(e) ==> version_time_entry(key@, value@, skip_fixed) == Some((e.0@, e.1)),
        r is None ==> version_time_entry(key@, value@, skip_fixed) is None,
{
    if skip_fixed && (chars_eq(key.as_str(), "created") || chars_eq(key.as_str(), "modified")) {
        return None;
    }
    let v = match SemVer::parse(key.as_str()) {
        Some(v) => v,
        None => return None,
    };
    let text = match value {
        Json::Str(s) => s,
        _ => return None,
    };
    match Timestamp::parse_rfc3339(text.as_str()) {
        Some(t) => Some((v, t)),
        None => None,
    }
}

/// Reads the members of an object as version-keyed instants, leaving out those
/// whose name is no version or whose value is no RFC 3339 text.
fn version_times(j: &Json, skip_fixed: bool) -> (r: Option<VersionDateTimeMap>)
    ensures
        r matches Some(m) ==> version_times_of(j@, skip_fixed) == Some(m@) && keys_unique(m@),
        r is None ==> version_times_of(j@, skip_fixed) is None,
{
    match j {
        Json::Object(members) => {
            let ghost keys = j@->Object_0;
            let ghost values = j@->Object_1;
            let mut out: Vec<(SemVer, Timestamp)> = Vec::new();
            let mut i: usize = 0;
            while i < members.len()
                invariant
                    *j == Json::Object(*members),
                    keys == j@->Object_0,
                    values == j@->Object_1,
                    values.len() == members@.len(),
                    i <= members.len(),
                    pairs_view(out@) == version_times_upto(keys, values, skip_fixed, i as int),
                    keys_unique(pairs_view(out@)),
                decreases members.len() - i,
            {
                assert(keys[i as int] == members@[i as int].0@);
                assert(values[i as int] == members@[i as int].1@);
                match version_time_entry_exec(&members[i].0, &members[i].1, skip_fixed) {
                    Some(e) => upsert_entry(&mut out, e.0, e.1),
                    None => {},
                }
                i += 1;
            }
            Some(VersionDateTimeMap { entries: out })
        },
        _ => None,
    }
}

impl VersionDateTimeMap {
    /// An empty map.
    pub fn new() -> (r: VersionDateTimeMap)
        ensures
            r@.len() == 0,
    {
        let r = VersionDateTimeMap { entries: Vec::new() };
        assert(pairs_view(r.entries@) =~= Seq::empty());
        r
    }

    /// The entries, no two with the same version.
    pub fn inner(self) -> (r: Vec<(SemVer, Timestamp)>)
        ensures
            pairs_view(r@) == self@,
            keys_unique(self@),
    {
        proof {
            use_type_invariant(&self);
        }
        self.entries
    }

    /// The entries, no two with the same version, by reference.
    pub fn inner_ref(&self) -> (r: &Vec<(SemVer, Timestamp)>)
        ensures
            pairs_view(r@) == self@,
            keys_unique(self@),
    {
        proof {
            use_type_invariant(self);
        }
        &self.entries
    }

    /// Reads a wire object of version-keyed RFC 3339 texts. A member whose name
    /// is no version, or whose value is no RFC 3339 text, is left out; only a
    /// value that is no object is an error.
    pub fn from_json(j: &Json) -> (r: Result<VersionDateTimeMap, DecodeError>)
        ensures
            r matches Ok(m) ==> version_times_of(j@, false) == Some(m@) && keys_unique(m@),
            r is Err ==> version_times_of(j@, false) is None && r->Err_0 is Mismatch,
    {
        match version_times(j, false) {
            Some(m) => Ok(m),
            None => Err(mismatch("versions")),
        }
    }
}

/// Whether every instant of `e` can be written as RFC 3339.
pub open spec fn all_renderable(e: Seq<(SemVerView, Timestamp)>) -> bool {
    forall|i: int| 0 <= i < e.len() ==> (#[trigger] rfc3339_render(e[i].1)) is Some
}

/// The member names that version entries are written under: their version texts.
pub open spec fn version_keys(e: Seq<(SemVerView, Timestamp)>) -> Seq<Seq<char>> {
    Seq::new(e.len(), |i: int| semver_text(e[i].0))
}

/// The member values that version entries are written as: their RFC 3339 texts.
pub open spec fn version_values(e: Seq<(SemVerView, Timestamp)>) -> Seq<JsonView> {
    Seq::new(e.len(), |i: int| JsonView::Str(rfc3339_render(e[i].1)->0))
}

/// Appends one member per entry, named by the version text and valued by the
/// RFC 3339 text; `false` where an instant cannot be written.
fn push_version_members(entries: &Vec<(SemVer, Timestamp)>, out: &mut Vec<(String, Json)>) -> (ok: bool)
    ensures
        ok == all_renderable(pairs_view(entries@)),
        ok ==> ({
            let e = pairs_view(entries@);
            &&& final(out)@.len() == old(out)@.len() + e.len()
            &&& final(out)@.subrange(0, old(out)@.len() as int) == old(out)@
            &&& forall|k: int| 0 <= k < e.len() ==> (#[trigger] final(out)@[old(out)@.len() + k]).0@ == version_keys(e)[k]
                && final(out)@[old(out)@.len() + k].1@ == version_values(e)[k]
        }),
{
    let ghost e = pairs_view(entries@);
    let ghost start = out@.len();
    let ghost orig = out@;
    let mut i: usize = 0;
    while i < entries.len()
        invariant
            e == pairs_view(entries@),
            start == orig.len(),
            i <= entries.len(),
            out@.len() == start + i,
            out@.subrange(0, start as int) == orig,
            forall|k: int| 0 <= k < i ==> (#[trigger] rfc3339_render(e[k].1)) is Some,
            forall|k: int| 0 <= k < i ==> (#[trigger] out@[start + k]).0@ == version_keys(e)[k]
                && out@[start + k].1@ == version_values(e)[k],
        decreases entries.len() - i,
    {
        let text = match entries[i].1.to_rfc3339() {
            Some(t) => t,
            None => {
                assert(rfc3339_render(e[i as int].1) is None);
                return false;
            },
        };
        let key = entries[i].0.to_text();
        let ghost before = out@;
        out.push((key, Json::Str(text)));
        assert(out@.subrange(0, start as int) =~= before.subrange(0, start as int));
        assert(out@[start + i] == (key, Json::Str(text)));
        i += 1;
    }
    true
}

impl VersionDateTimeMap {
    /// Writes the map as a flat object: one member per entry, named by the
    /// version and valued by the RFC 3339 text of its instant; `None` where an
    /// instant is out of range.
    pub fn to_json(&self) -> (r: Option<Json>)
        ensures
            r is Some == all_renderable(self@),
            r matches Some(j) ==> j@ == JsonView::Object(version_keys(self@), version_values(self@)),
    {
        let mut out: Vec<(String, Json)> = Vec::new();
        if !push_version_members(&self.entries, &mut out) {
            return None;
        }
        let j = Json::Object(out);
        proof {
            let e = pairs_view(self.entries@);
            assert(e == self@);
            assert forall|k: int| 0 <= k < e.len() implies j@->Object_0[k] == version_keys(e)[k]
                && j@->Object_1[k] == version_values(e)[k] by {
                assert(out@[0 + k].0@ == version_keys(e)[k]);
            }
            assert(j@->Object_0 =~= version_keys(self@));
            assert(j@->Object_1 =~= version_values(self@));
        }
        Some(j)
    }
}

/// The flat wire object of a time record: `created`, `modified`, then one
/// member per version; `None` where an instant cannot be written.
pub open spec fn time_info_json(t: TimeInfoView) -> Option<JsonView> {
    if rfc3339_render(t.created) is Some && rfc3339_render(t.modified) is Some && all_renderable(t.versions) {
        Some(JsonView::Object(
            seq!["created"@, "modified"@] + version_keys(t.versions),
            seq![JsonView::Str(rfc3339_render(t.created)->0), JsonView::Str(rfc3339_render(t.modified)->0)]
                + version_values(t.versions),
        ))
    } else {
        None
    }
}

/// Timestamps of a package's activity.
#[derive(Debug, Clone)]
pub struct TimeInfo {
    /// When the package was first published.
    pub created: Timestamp,
    /// When the package last changed.
    pub modified: Timestamp,
    /// When each version was published.
    pub versions: VersionDateTimeMap,
}

pub struct TimeInfoView {
    pub created: Timestamp,
    pub modified: Timestamp,
    pub versions: Seq<(SemVerView, Timestamp)>,
}

impl View for TimeInfo {
    type V = TimeInfoView;

    open spec fn view(&self) -> TimeInfoView {
        TimeInfoView { created: self.created, modified: self.modified, versions: self.versions@ }
    }
}

/// The time information that a flattened wire object stands for: `created` and
/// `modified` must be RFC 3339 texts; every other member whose name is a
/// version and whose value is an RFC 3339 text is a version entry, and the
/// rest are left out.
pub open spec fn time_info_of(j: JsonView) -> Option<TimeInfoView> {
    let c = time_member(j, "created"@);
    let m = time_member(j, "modified"@);
    if c is Some && m is Some && version_times_of(j, true) is Some {
        Some(TimeInfoView { created: c->0, modified: m->0, versions: version_times_of(j, true)->0 })
    } else {
        None
    }
}

fn get_time(j: &Json, key: &str) -> (r: Result<Timestamp, DecodeError>)
    ensures
        r matches Ok(t) ==> time_member(j@, key@) == Some(t),
        r is Err ==> time_member(j@, key@) is None && r->Err_0 is Mismatch,
{
    let s = get_str(j, key)?;
    match Timestamp::parse_rfc3339(s.as_str()) {
        Some(t) => Ok(t),
        None => Err(mismatch(key)),
    }
}

impl TimeInfo {
    /// Writes the record as one flat object: `created`, `modified`, and one
    /// member per version, with no nested `versions` member.
    pub fn to_json(&self) -> (r: Option<Json>)
        ensures
            r matches Some(j) ==> time_info_json(self@) == Some(j@),
            r is None ==> time_info_json(self@) is None,
    {
        let created = match self.created.to_rfc3339() {
            Some(t) => t,
            None => return None,
        };
        let modified = match self.modified.to_rfc3339() {
            Some(t) => t,
            None => return None,
        };
        let mut out: Vec<(String, Json)> = Vec::new();
        out.push((String::from_str("created"), Json::Str(created)));
        out.push((String::from_str("modified"), Json::Str(modified)));
        let ghost two = out@;
        if !push_version_members(&self.versions.entries, &mut out) {
            return None;
        }
        let j = Json::Object(out);
        proof {
            let e = self.versions@;
            assert(e == pairs_view(self.versions.entries@));
            assert forall|k: int| 0 <= k < e.len() implies j@->Object_0[2 + k] == version_keys(e)[k]
                && j@->Object_1[2 + k] == version_values(e)[k] by {
                assert(out@[2 + k].0@ == version_keys(e)[k]);
            }
            assert(j@->Object_0 =~= seq!["created"@, "modified"@] + version_keys(e)) by {
                assert(out@[0] == two[0] && out@[1] == two[1]);
            }
            assert(j@->Object_1 =~= seq![JsonView::Str(created@), JsonView::Str(modified@)] + version_values(e)) by {
                assert(out@.subrange(0, 2)[0] == two[0] && out@.subrange(0, 2)[1] == two[1]);
                assert(out@[0].1 == Json::Str(created));
                assert(out@[0].1@ == JsonView::Str(created@));
                assert(out@[1].1@ == JsonView::Str(modified@));
            }
        }
        Some(j)
    }

    /// Reads the flattened wire object.
    pub fn from_json(j: &Json) -> (r: Result<TimeInfo, DecodeError>)
        ensures
            r matches Ok(t) ==> time_info_of(j@) == Some(t@),
            r is Err ==> time_info_of(j@) is None && r->Err_0 is Mismatch,
    {
        let created = get_time(j, "created")?;
        let modified = get_time(j, "modified")?;
        match version_times(j, true) {
            Some(versions) => Ok(TimeInfo { created, modified, versions }),
            None => Err(mismatch("time")),
        }
    }
}

/// Whether every member of an object is named by a version and has a value
/// that decodes.
pub open spec fn all_version_entries<T: JsonDecode>(keys: Seq<Seq<char>>, values: Seq<JsonView>) -> bool {
    forall|i: int| 0 <= i < values.len() ==> (#[trigger] semver_parse(keys[i])) is Some && T::decoded(values[i]) is Some
}

/// The view of a list of version-keyed entries.
pub open spec fn versioned_view<T: View>(v: Seq<(SemVer, T)>) -> Seq<(SemVerView, T::V)> {
    pairs_view(v)
}

/// The map that the first `n` members of an object give, keyed by version; a
/// later member replaces an earlier one with the same version.
pub open spec fn version_map_upto<T: JsonDecode>(keys: Seq<Seq<char>>, values: Seq<JsonView>, n: int) -> Seq<(SemVerView, T::V)>
    decreases n,
{
    if n <= 0 {
        Seq::empty()
    } else {
        upsert(version_map_upto::<T>(keys, values, n - 1), semver_parse(keys[n - 1])->0, T::decoded(values[n - 1])->0)
    }
}

/// The version-keyed map that an object stands for; `None` where `j` is no
/// object, a member name is no version, or a value does not decode.
pub open spec fn version_map_of<T: JsonDecode>(j: JsonView) -> Option<Seq<(SemVerView, T::V)>> {
    match j {
        JsonView::Object(keys, values) => if keys.len() == values.len() && all_version_entries::<T>(keys, values) {
            Some(version_map_upto::<T>(keys, values, values.len() as int))
        } else {
            None
        },
        _ => None,
    }
}

/// The version-keyed entries of the object member `key`.
pub open spec fn version_map_member<T: JsonDecode>(j: JsonView, key: Seq<char>) -> Option<Seq<(SemVerView, T::V)>> {
    match member(j, key) {
        Some(v) => version_map_of::<T>(v),
        None => None,
    }
}

/// Reads the object member `key` as version-keyed entries.
pub fn get_version_map<T: JsonDecode>(j: &Json, key: &str) -> (r: Result<Vec<(SemVer, T)>, DecodeError>)
    ensures
        r matches Ok(v) ==> version_map_member::<T>(j@, key@) == Some(versioned_view(v@)) && keys_unique(versioned_view(v@)),
        r is Err ==> version_map_member::<T>(j@, key@) is None && r->Err_0 is Mismatch,
{
    let obj = match get_member(j, key) {
        Some(o) => o,
        None => return Err(mismatch(key)),
    };
    match obj {
        Json::Object(members) => {
            let ghost keys = obj@->Object_0;
            let ghost values = obj@->Object_1;
            let mut out: Vec<(SemVer, T)> = Vec::new();
            let mut i: usize = 0;
            while i < members.len()
                invariant
                    *obj == Json::Object(*members),
                    member(j@, key@) == Some(obj@),
                    keys == obj@->Object_0,
                    values == obj@->Object_1,
                    keys.len() == members@.len(),
                    values.len() == members@.len(),
                    i <= members.len(),
                    forall|k: int| 0 <= k < i ==> (#[trigger] semver_parse(keys[k])) is Some && T::decoded(values[k]) is Some,
                    pairs_view(out@) == version_map_upto::<T>(keys, values, i as int),
                    keys_unique(pairs_view(out@)),
                decreases members.len() - i,
            {
                assert(keys[i as int] == members@[i as int].0@);
                assert(values[i as int] == members@[i as int].1@);
                let v = match SemVer::parse(members[i].0.as_str()) {
                    Some(v) => v,
                    None => {
                        assert(!all_version_entries::<T>(keys, values));
                        return Err(mismatch(key));
                    },
                };
                match T::from_json(&members[i].1) {
                    Ok(x) => upsert_entry(&mut out, v, x),
                    Err(e) => {
                        assert(!all_version_entries::<T>(keys, values));
                        return Err(e);
                    },
                }
                i += 1;
            }
            Ok(out)
        },
        _ => Err(mismatch(key)),
    }
}

/// The canonical text of an absolute URL as the `url` crate writes it; `None`
/// where the text is no well-formed absolute URL.
pub uninterp spec fn url_canonical(text: Seq<char>) -> Option<Seq<char>>;

/// Relies on `url::Url::parse`, then `Url::as_str` of the result, whose text
/// always has `:` right after the scheme (the invariant on `scheme_end`).
#[verifier::external_body]
fn canonical_url(text: &str) -> (r: Option<String>)
    ensures
        r matches Some(c) ==> url_canonical(text@) == Some(c@) && holds_char(c@, ':'),
        r is None ==> url_canonical(text@) is None,
{
    match url::Url::parse(text) {
        Ok(u) => Some(u.as_str().to_string()),
        Err(_) => None,
    }
}

/// Reads a URL field: the text must be a well-formed absolute URL, and is kept
/// in canonical form.
pub fn decode_url(text: &str) -> (r: Option<String>)
    ensures
        r matches Some(c) ==> url_canonical(text@) == Some(c@) && holds_char(c@, ':'),
        r is None ==> url_canonical(text@) is None,
{
    canonical_url(text)
}

/// The canonical text of the URL member `key`.
pub open spec fn url_member(j: JsonView, key: Seq<char>) -> Option<Seq<char>> {
    match str_member(j, key) {
        Some(s) => url_canonical(s),
        None => None,
    }
}

/// Reads the URL member `key`.
pub fn get_url(j: &Json, key: &str) -> (r: Result<String, DecodeError>)
    ensures
        r matches Ok(u) ==> url_member(j@, key@) == Some(u@),
        r is Err ==> url_member(j@, key@) is None && r->Err_0 is Mismatch,
{
    let s = get_str(j, key)?;
    match decode_url(s.as_str()) {
        Some(u) => Ok(u),
        None => Err(mismatch(key)),
    }
}

/// The version that the string member `key` holds.
pub open spec fn version_member(j: JsonView, key: Seq<char>) -> Option<SemVerView> {
    match str_member(j, key) {
        Some(s) => semver_parse(s),
        None => None,
    }
}

/// Reads the version member `key`.
pub fn get_version(j: &Json, key: &str) -> (r: Result<SemVer, DecodeError>)
    ensures
        r matches Ok(v) ==> version_member(j@, key@) == Some(v@),
        r is Err ==> version_member(j@, key@) is None && r->Err_0 is Mismatch,
{
    let s = get_str(j, key)?;
    match SemVer::parse(s.as_str()) {
        Some(v) => Ok(v),
        None => Err(mismatch(key)),
    }
}

} // verus!
