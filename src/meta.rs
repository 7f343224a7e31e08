//! Package metadata: the identity builder, the per-package version list, and
//! the npm-compatible metadata variant.
use vstd::prelude::*;
use crate::codec::{get_version, get_version_map, time_info_of, version_map_member, version_member, versioned_view, TimeInfo, TimeInfoView};
use crate::error::{DecodeError, NpmCompParseError};
use crate::fetcher::GetProviderScope;
use crate::info::{GetInfo, Info};
use crate::json::{get_member, get_str, member, mismatch, str_member, Json, JsonDecode, JsonView};
use crate::naming::{decode_name, decode_npm_comp_name, encode_name, encode_npm_comp_name, NameDecoding};
use crate::package::{NpmCompPackage, NpmCompPackageView};
use crate::version::{SemVer, SemVerView};
use vstd::std_specs::cmp::PartialEqSpec;

verus! {

/// The state of one version in [`Meta::versions`].
#[derive(Debug, Clone, Copy, PartialEq, Eq, Structural)]
pub struct VersionInfo {
    /// Whether the version was yanked; `false` when the wire omits it.
    pub yanked: bool,
}

impl View for VersionInfo {
    type V = VersionInfo;

    open spec fn view(&self) -> VersionInfo {
        *self
    }
}

impl JsonDecode for VersionInfo {
    /// An object whose `yanked` member, if present, is a boolean.
    open spec fn decoded(j: JsonView) -> Option<VersionInfo> {
        if !(j is Object) {
            None
        } else {
            match member(j, "yanked"@) {
                None => Some(VersionInfo { yanked: false }),
                Some(JsonView::Bool(b)) => Some(VersionInfo { yanked: b }),
                _ => None,
            }
        }
    }

    fn from_json(j: &Json) -> (r: Result<VersionInfo, DecodeError>) {
        if !matches!(j, Json::Object(_)) {
            return Err(mismatch("yanked"));
        }
        match get_member(j, "yanked") {
            None => Ok(VersionInfo { yanked: false }),
            Some(Json::Bool(b)) => Ok(VersionInfo { yanked: *b }),
            Some(_) => Err(mismatch("yanked")),
        }
    }
}

/// The identity of a package whose metadata is wanted.
#[derive(Debug, Clone, PartialEq, Eq)]
pub struct MetaBuilder {
    /// `dunno` in `@dunno/object`.
    pub scope: String,
    /// `object` in `@dunno/object`.
    pub name: String,
}

impl MetaBuilder {
    /// An identity with empty scope and name.
    pub fn new() -> (r: MetaBuilder)
        ensures
            r.scope@ == Seq::<char>::empty(),
            r.name@ == Seq::<char>::empty(),
    {
        MetaBuilder { scope: String::new(), name: String::new() }
    }

    /// The same identity with another scope.
    pub fn set_scope(self, value: &str) -> (r: MetaBuilder)
        ensures
            r.scope@ == value@,
            r.name@ == self.name@,
    {
        MetaBuilder { scope: value.to_owned(), name: self.name }
    }

    /// The same identity with another name.
    pub fn set_name(self, value: &str) -> (r: MetaBuilder)
        ensures
            r.scope@ == self.scope@,
            r.name@ == value@,
    {
        MetaBuilder { scope: self.scope, name: value.to_owned() }
    }

    /// The identity that `info` carries.
    pub fn from_info<T: GetInfo>(info: &T) -> (r: MetaBuilder)
        ensures
            r.scope@ == info.info_scope(),
            r.name@ == info.info_name(),
    {
        let i = info.get_info();
        MetaBuilder { scope: i.scope, name: i.name }
    }

    /// Reads an npm-compatible identifier `@<provider>/<scope>__<name>`, with the
    /// provider scope that `gts` knows.
    pub fn try_from_npm_comp_name<T: GetProviderScope>(gts: &T, value: &str) -> (r: Result<MetaBuilder, NpmCompParseError>)
        ensures
            decode_npm_comp_name(gts.provider_scope_view(), value@) == match r {
                Ok(b) => NameDecoding::Decoded(b.scope@, b.name@),
                Err(NpmCompParseError::PrefixMismatch(_)) => NameDecoding::PrefixMismatch,
                Err(NpmCompParseError::FormatError) => NameDecoding::FormatError,
            },
            r matches Err(NpmCompParseError::PrefixMismatch(p)) ==> p@ == gts.provider_scope_view(),
    {
        match decode_name(gts.get_provider_scope(), value) {
            Ok((scope, name)) => Ok(MetaBuilder { scope, name }),
            Err(e) => Err(e),
        }
    }

    /// Reads an npm-compatible identifier that is known to be well formed.
    pub fn from_npm_comp_name<T: GetProviderScope>(gts: &T, value: &str) -> (r: MetaBuilder)
        requires
            decode_npm_comp_name(gts.provider_scope_view(), value@) is Decoded,
        ensures
            decode_npm_comp_name(gts.provider_scope_view(), value@) == NameDecoding::Decoded(r.scope@, r.name@),
    {
        match Self::try_from_npm_comp_name(gts, value) {
            Ok(b) => b,
            Err(_) => {
                assert(false);
                MetaBuilder::new()
            },
        }
    }

    /// The npm-compatible identifier `@<provider>/<scope>__<name>` of this
    /// identity, with the provider scope that `gts` knows.
    pub fn to_npm_comp_name<T: GetProviderScope>(&self, gts: &T) -> (r: String)
        ensures
            r@ == encode_npm_comp_name(gts.provider_scope_view(), self.scope@, self.name@),
    {
        encode_name(gts.get_provider_scope(), self.scope.as_str(), self.name.as_str())
    }
}

impl GetInfo for MetaBuilder {
    open spec fn info_scope(&self) -> Seq<char> {
        self.scope@
    }

    open spec fn info_name(&self) -> Seq<char> {
        self.name@
    }

    fn get_info(&self) -> (r: Info) {
        Info { scope: self.scope.clone(), name: self.name.clone() }
    }
}

/// The metadata of a package: its identity, latest version and known versions.
#[derive(Debug, Clone)]
pub struct Meta {
    pub scope: String,
    pub name: String,
    /// The latest version, one of [`Self::versions`].
    pub latest: SemVer,
    /// Every version with its state, no two with the same version.
    pub versions: Vec<(SemVer, VersionInfo)>,
}

pub struct MetaView {
    pub scope: Seq<char>,
    pub name: Seq<char>,
    pub latest: SemVerView,
    pub versions: Seq<(SemVerView, VersionInfo)>,
}

impl View for Meta {
    type V = MetaView;

    open spec fn view(&self) -> MetaView {
        MetaView {
            scope: self.scope@,
            name: self.name@,
            latest: self.latest@,
            versions: versioned_view(self.versions@),
        }
    }
}

/// Two metadata records are equal when they name the same package at the same
/// latest version; their version lists are not compared.
pub open spec fn meta_same(a: MetaView, b: MetaView) -> bool {
    a.scope == b.scope && a.name == b.name && a.latest == b.latest
}

impl PartialEq for Meta {
    fn eq(&self, other: &Meta) -> (r: bool) {
        self.scope == other.scope && self.name == other.name && self.latest == other.latest
    }
}

impl vstd::std_specs::cmp::PartialEqSpecImpl for Meta {
    open spec fn obeys_eq_spec() -> bool {
        true
    }

    open spec fn eq_spec(&self, other: &Meta) -> bool {
        meta_same(self@, other@)
    }
}

impl Eq for Meta {}

/// Metadata records that agree on scope, name and latest version are equal,
/// whatever their version lists hold.
pub proof fn lemma_meta_eq_ignores_versions(a: Meta, b: Meta)
    requires
        a.scope@ == b.scope@,
        a.name@ == b.name@,
        a.latest@ == b.latest@,
    ensures
        a.eq_spec(&b),
{
}

impl GetInfo for Meta {
    open spec fn info_scope(&self) -> Seq<char> {
        self.scope@
    }

    open spec fn info_name(&self) -> Seq<char> {
        self.name@
    }

    fn get_info(&self) -> (r: Info) {
        Info { scope: self.scope.clone(), name: self.name.clone() }
    }
}

/// The metadata that a `meta.json` object stands for.
pub open spec fn meta_of(j: JsonView) -> Option<MetaView> {
    let scope = str_member(j, "scope"@);
    let name = str_member(j, "name"@);
    let latest = version_member(j, "latest"@);
    let versions = version_map_member::<VersionInfo>(j, "versions"@);
    if scope is Some && name is Some && latest is Some && versions is Some {
        Some(MetaView { scope: scope->0, name: name->0, latest: latest->0, versions: versions->0 })
    } else {
        None
    }
}

impl JsonDecode for Meta {
    open spec fn decoded(j: JsonView) -> Option<MetaView> {
        meta_of(j)
    }

    fn from_json(j: &Json) -> (r: Result<Meta, DecodeError>) {
        let scope = get_str(j, "scope")?;
        let name = get_str(j, "name")?;
        let latest = get_version(j, "latest")?;
        let versions = get_version_map::<VersionInfo>(j, "versions")?;
        Ok(Meta { scope, name, latest, versions })
    }
}

/// The distribution tags of an npm-compatible record.
#[derive(Debug, Clone)]
pub struct NpmCompDistTags {
    pub latest: SemVer,
}

impl View for NpmCompDistTags {
    type V = SemVerView;

    open spec fn view(&self) -> SemVerView {
        self.latest@
    }
}

impl JsonDecode for NpmCompDistTags {
    /// An object whose `latest` member is a version.
    open spec fn decoded(j: JsonView) -> Option<SemVerView> {
        version_member(j, "latest"@)
    }

    fn from_json(j: &Json) -> (r: Result<NpmCompDistTags, DecodeError>) {
        let latest = get_version(j, "latest")?;
        Ok(NpmCompDistTags { latest })
    }
}

/// The npm-compatible metadata of a package.
#[derive(Debug, Clone)]
pub struct NpmCompMeta {
    /// The flattened identifier `@<provider>/<scope>__<name>`.
    pub name: String,
    /// Every version with its record, no two with the same version.
    pub versions: Vec<(SemVer, NpmCompPackage)>,
    pub description: String,
    /// `dist-tags` on the wire.
    pub dist_tags: NpmCompDistTags,
    pub time: TimeInfo,
}

pub struct NpmCompMetaView {
    pub name: Seq<char>,
    pub versions: Seq<(SemVerView, NpmCompPackageView)>,
    pub description: Seq<char>,
    pub dist_tags: SemVerView,
    pub time: TimeInfoView,
}

impl View for NpmCompMeta {
    type V = NpmCompMetaView;

    open spec fn view(&self) -> NpmCompMetaView {
        NpmCompMetaView {
            name: self.name@,
            versions: versioned_view(self.versions@),
            description: self.description@,
            dist_tags: self.dist_tags@,
            time: self.time@,
        }
    }
}

/// The npm-compatible metadata that a wire object stands for.
pub open spec fn npm_comp_meta_of(j: JsonView) -> Option<NpmCompMetaView> {
    let name = str_member(j, "name"@);
    let versions = version_map_member::<NpmCompPackage>(j, "versions"@);
    let description = str_member(j, "description"@);
    let tags = member(j, "dist-tags"@);
    let time = member(j, "time"@);
    if name is Some && versions is Some && description is Some && tags is Some
        && NpmCompDistTags::decoded(tags->0) is Some && time is Some && time_info_of(time->0) is Some {
        Some(NpmCompMetaView {
            name: name->0,
            versions: versions->0,
            description: description->0,
            dist_tags: NpmCompDistTags::decoded(tags->0)->0,
            time: time_info_of(time->0)->0,
        })
    } else {
        None
    }
}

impl JsonDecode for NpmCompMeta {
    open spec fn decoded(j: JsonView) -> Option<NpmCompMetaView> {
        npm_comp_meta_of(j)
    }

    fn from_json(j: &Json) -> (r: Result<NpmCompMeta, DecodeError>) {
        let name = get_str(j, "name")?;
        let versions = get_version_map::<NpmCompPackage>(j, "versions")?;
        let description = get_str(j, "description")?;
        let dist_tags = match get_member(j, "dist-tags") {
            Some(t) => NpmCompDistTags::from_json(t)?,
            None => return Err(mismatch("dist-tags")),
        };
        let time = match get_member(j, "time") {
            Some(t) => TimeInfo::from_json(t)?,
            None => return Err(mismatch("time")),
        };
        Ok(NpmCompMeta { name, versions, description, dist_tags, time })
    }
}

} // verus!
