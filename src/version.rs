//! Semantic versions as plain values, parsed and checked by the `semver` crate.
use vstd::prelude::*;
use crate::text::{append_decimal, decimal, push_char};
use crate::json::KeyEq;

verus! {

/// A semantic version: `major.minor.patch`, an optional pre-release and optional
/// build metadata (each empty when absent).
#[derive(Debug)]
pub struct SemVer {
    pub major: u64,
    pub minor: u64,
    pub patch: u64,
    pub pre: String,
    pub build: String,
}

/// The mathematical value of a [`SemVer`].
pub struct SemVerView {
    pub major: u64,
    pub minor: u64,
    pub patch: u64,
    pub pre: Seq<char>,
    pub build: Seq<char>,
}

impl View for SemVer {
    type V = SemVerView;

    open spec fn view(&self) -> SemVerView {
        SemVerView {
            major: self.major,
            minor: self.minor,
            patch: self.patch,
            pre: self.pre@,
            build: self.build@,
        }
    }
}

impl Clone for SemVer {
    fn clone(&self) -> (r: SemVer)
        ensures
            r@ == self@,
    {
        SemVer {
            major: self.major,
            minor: self.minor,
            patch: self.patch,
            pre: self.pre.clone(),
            build: self.build.clone(),
        }
    }
}

impl PartialEq for SemVer {
    fn eq(&self, other: &SemVer) -> (r: bool) {
        self.major == other.major && self.minor == other.minor && self.patch == other.patch
            && self.pre == other.pre && self.build == other.build
    }
}

impl vstd::std_specs::cmp::PartialEqSpecImpl for SemVer {
    open spec fn obeys_eq_spec() -> bool {
        true
    }

    open spec fn eq_spec(&self, other: &SemVer) -> bool {
        self@ == other@
    }
}

impl Eq for SemVer {}

impl KeyEq for SemVer {
    fn key_eq(&self, other: &SemVer) -> (r: bool) {
        self.eq(other)
    }
}

/// What `semver::Version::parse` makes of a text: `None` where it is no version.
pub uninterp spec fn semver_parse(text: Seq<char>) -> Option<SemVerView>;

/// Relies on `semver::Version::parse`, which rejects the empty text, and on the
/// `as_str` of its pre-release and build parts.
#[verifier::external_body]
fn parse_semver(text: &str) -> (r: Option<SemVer>)
    ensures
        r matches Some(v) ==> semver_parse(text@) == Some(v@),
        r is None ==> semver_parse(text@) is None,
        text@.len() == 0 ==> r is None,
{
    match semver::Version::parse(text) {
        Ok(v) => Some(SemVer {
            major: v.major,
            minor: v.minor,
            patch: v.patch,
            pre: v.pre.as_str().to_string(),
            build: v.build.as_str().to_string(),
        }),
        Err(_) => None,
    }
}

/// `major.minor.patch`, then `-pre` if there is a pre-release, then `+build` if
/// there is build metadata.
pub open spec fn semver_text(v: SemVerView) -> Seq<char> {
    let core = decimal(v.major as nat) + seq!['.'] + decimal(v.minor as nat) + seq!['.']
        + decimal(v.patch as nat);
    let with_pre = if v.pre.len() > 0 { core + seq!['-'] + v.pre } else { core };
    if v.build.len() > 0 { with_pre + seq!['+'] + v.build } else { with_pre }
}

impl SemVer {
    /// The version `major.minor.patch`, with no pre-release and no build metadata.
    pub fn new(major: u64, minor: u64, patch: u64) -> (r: SemVer)
        ensures
            r@ == (SemVerView { major, minor, patch, pre: Seq::empty(), build: Seq::empty() }),
    {
        SemVer { major, minor, patch, pre: String::new(), build: String::new() }
    }

    /// Parses a version text; `None` where it is no semantic version.
    pub fn parse(text: &str) -> (r: Option<SemVer>)
        ensures
            r matches Some(v) ==> semver_parse(text@) == Some(v@),
            r is None ==> semver_parse(text@) is None,
    {
        parse_semver(text)
    }

    /// The text form of the version.
    pub fn to_text(&self) -> (r: String)
        ensures
            r@ == semver_text(self@),
    {
        let mut r = String::new();
        append_decimal(&mut r, self.major);
        push_char(&mut r, '.');
        append_decimal(&mut r, self.minor);
        push_char(&mut r, '.');
        append_decimal(&mut r, self.patch);
        if !self.pre.as_str().is_empty() {
            push_char(&mut r, '-');
            r.append(self.pre.as_str());
        }
        if !self.build.as_str().is_empty() {
            push_char(&mut r, '+');
            r.append(self.build.as_str());
        }
        assert(r@ =~= semver_text(self@));
        r
    }
}

/// What `semver::VersionReq` makes of a requirement text, written back in its
/// own canonical form; `None` where the text is no requirement.
pub uninterp spec fn version_req_canonical(text: Seq<char>) -> Option<Seq<char>>;

/// Relies on `semver::VersionReq::parse` and on the `Display` of the parsed requirement.
#[verifier::external_body]
fn canonical_version_req(text: &str) -> (r: Option<String>)
    ensures
        r matches Some(c) ==> version_req_canonical(text@) == Some(c@),
        r is None ==> version_req_canonical(text@) is None,
{
    match semver::VersionReq::parse(text) {
        Ok(req) => Some(req.to_string()),
        Err(_) => None,
    }
}

/// A version requirement such as `^1.2`, held in the canonical form that
/// `semver` writes it in.
#[derive(Debug, Clone, PartialEq, Eq)]
pub struct VersionRange {
    pub text: String,
}

impl VersionRange {
    /// Parses a requirement text; `None` where it is no requirement.
    pub fn parse(text: &str) -> (r: Option<VersionRange>)
        ensures
            r matches Some(v) ==> version_req_canonical(text@) == Some(v.text@),
            r is None ==> version_req_canonical(text@) is None,
    {
        match canonical_version_req(text) {
            Some(c) => Some(VersionRange { text: c }),
            None => None,
        }
    }
}

} // verus!
