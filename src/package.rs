//! Per-version package records: the file manifest, module graphs and exports,
//! and the npm-compatible per-version record.
use vstd::prelude::*;
use crate::codec::{get_url, get_version, url_member, version_member};
use crate::error::DecodeError;
use crate::graph::{ModuleGraph2, ModuleGraph2View, module_graph2_of};
use crate::info::{GetInfo, Info};
use crate::json::{
    get_member, get_named, get_str, get_uint, member, mismatch, named_map, named_map_of, named_member,
    named_view, str_member, str_of, uint_member, Json, JsonDecode, JsonView,
};
use crate::version::{version_req_canonical, SemVer, SemVerView, VersionRange};

verus! {

/// One file of a published version: its declared size and checksum. The
/// checksum is carried as given and never checked against any content.
#[derive(Debug, Clone, PartialEq, Eq, PartialOrd, Ord)]
pub struct Manifest {
    pub size: u64,
    pub checksum: String,
}

pub struct ManifestView {
    pub size: u64,
    pub checksum: Seq<char>,
}

impl View for Manifest {
    type V = ManifestView;

    open spec fn view(&self) -> ManifestView {
        ManifestView { size: self.size, checksum: self.checksum@ }
    }
}

impl JsonDecode for Manifest {
    /// An object with an integer `size` and a string `checksum`.
    open spec fn decoded(j: JsonView) -> Option<ManifestView> {
        let size = uint_member(j, "size"@, u64::MAX as int);
        let checksum = str_member(j, "checksum"@);
        if size is Some && checksum is Some {
            Some(ManifestView { size: size->0 as u64, checksum: checksum->0 })
        } else {
            None
        }
    }

    fn from_json(j: &Json) -> (r: Result<Manifest, DecodeError>) {
        let size = get_uint(j, "size", u64::MAX)?;
        let checksum = get_str(j, "checksum")?;
        Ok(Manifest { size, checksum })
    }
}

impl JsonDecode for ModuleGraph2 {
    open spec fn decoded(j: JsonView) -> Option<ModuleGraph2View> {
        module_graph2_of(j)
    }

    fn from_json(j: &Json) -> (r: Result<ModuleGraph2, DecodeError>) {
        ModuleGraph2::from_json(j)
    }
}

/// The named entries of an optional object member: `Some(None)` where it is
/// absent or null.
pub open spec fn optional_named_member<T: JsonDecode>(j: JsonView, key: Seq<char>) -> Option<Option<Seq<(Seq<char>, T::V)>>> {
    match member(j, key) {
        None => Some(None),
        Some(JsonView::Null) => Some(None),
        Some(v) => match named_map_of::<T>(v) {
            Some(m) => Some(Some(m)),
            None => None,
        },
    }
}

/// Reads an optional object member as named entries.
pub fn get_optional_named<T: JsonDecode>(j: &Json, key: &str) -> (r: Result<Option<Vec<(String, T)>>, DecodeError>)
    ensures
        r matches Ok(o) ==> optional_named_member::<T>(j@, key@) == Some(match o {
            Some(v) => Some(named_view(v@)),
            None => None,
        }),
        r is Err ==> optional_named_member::<T>(j@, key@) is None && r->Err_0 is Mismatch,
{
    match get_member(j, key) {
        None => Ok(None),
        Some(Json::Null) => Ok(None),
        Some(v) => match named_map(v, key) {
            Ok(m) => Ok(Some(m)),
            Err(e) => Err(e),
        },
    }
}

/// The record of one published version (`<version>_meta.json`).
#[derive(Debug, Clone, PartialEq, Eq)]
pub struct Package {
    /// Files by path, each path starting with `/`.
    pub manifest: Vec<(String, Manifest)>,
    /// The first module graph format, kept as raw JSON; only early packages have it.
    pub module_graph1: Option<Vec<(String, Json)>>,
    /// The module graph by file path.
    pub module_graph2: Option<Vec<(String, ModuleGraph2)>>,
    /// Export keys (such as `.`) and the files they point to.
    pub exports: Vec<(String, String)>,
}

pub struct PackageView {
    pub manifest: Seq<(Seq<char>, ManifestView)>,
    pub module_graph1: Option<Seq<(Seq<char>, JsonView)>>,
    pub module_graph2: Option<Seq<(Seq<char>, ModuleGraph2View)>>,
    pub exports: Seq<(Seq<char>, Seq<char>)>,
}

impl View for Package {
    type V = PackageView;

    open spec fn view(&self) -> PackageView {
        PackageView {
            manifest: named_view(self.manifest@),
            module_graph1: match self.module_graph1 {
                Some(m) => Some(named_view(m@)),
                None => None,
            },
            module_graph2: match self.module_graph2 {
                Some(m) => Some(named_view(m@)),
                None => None,
            },
            exports: named_view(self.exports@),
        }
    }
}

/// The version record that a wire object stands for: `manifest` and `exports`
/// are required, the two module graphs may be absent or null.
pub open spec fn package_of(j: JsonView) -> Option<PackageView> {
    let manifest = named_member::<Manifest>(j, "manifest"@);
    let g1 = optional_named_member::<Json>(j, "moduleGraph1"@);
    let g2 = optional_named_member::<ModuleGraph2>(j, "moduleGraph2"@);
    let exports = named_member::<String>(j, "exports"@);
    if manifest is Some && g1 is Some && g2 is Some && exports is Some {
        Some(PackageView { manifest: manifest->0, module_graph1: g1->0, module_graph2: g2->0, exports: exports->0 })
    } else {
        None
    }
}

impl JsonDecode for Package {
    open spec fn decoded(j: JsonView) -> Option<PackageView> {
        package_of(j)
    }

    fn from_json(j: &Json) -> (r: Result<Package, DecodeError>) {
        let manifest = get_named::<Manifest>(j, "manifest")?;
        let module_graph1 = get_optional_named::<Json>(j, "moduleGraph1")?;
        let module_graph2 = get_optional_named::<ModuleGraph2>(j, "moduleGraph2")?;
        let exports = get_named::<String>(j, "exports")?;
        Ok(Package { manifest, module_graph1, module_graph2, exports })
    }
}

/// The identity and version of a package whose version record is wanted.
#[derive(Debug, Clone)]
pub struct PackageBuilder {
    pub scope: String,
    pub name: String,
    pub version: SemVer,
}

impl PackageBuilder {
    /// An identity with empty scope and name, at version `0.0.0`.
    pub fn new() -> (r: PackageBuilder)
        ensures
            r.scope@ == Seq::<char>::empty(),
            r.name@ == Seq::<char>::empty(),
            r.version@ == (SemVerView { major: 0, minor: 0, patch: 0, pre: Seq::empty(), build: Seq::empty() }),
    {
        PackageBuilder { scope: String::new(), name: String::new(), version: SemVer::new(0, 0, 0) }
    }

    /// The same identity with another scope.
    pub fn set_scope(self, value: &str) -> (r: PackageBuilder)
        ensures
            r.scope@ == value@,
            r.name@ == self.name@,
            r.version@ == self.version@,
    {
        PackageBuilder { scope: value.to_owned(), name: self.name, version: self.version }
    }

    /// The same identity with another name.
    pub fn set_name(self, value: &str) -> (r: PackageBuilder)
        ensures
            r.scope@ == self.scope@,
            r.name@ == value@,
            r.version@ == self.version@,
    {
        PackageBuilder { scope: self.scope, name: value.to_owned(), version: self.version }
    }

    /// The same identity at another version.
    pub fn set_version(self, value: SemVer) -> (r: PackageBuilder)
        ensures
            r.scope@ == self.scope@,
            r.name@ == self.name@,
            r.version@ == value@,
    {
        PackageBuilder { scope: self.scope, name: self.name, version: value }
    }

    /// The identity that `info` carries, at version `0.0.0`.
    pub fn from_info<T: GetInfo>(info: &T) -> (r: PackageBuilder)
        ensures
            r.scope@ == info.info_scope(),
            r.name@ == info.info_name(),
            r.version@ == (SemVerView { major: 0, minor: 0, patch: 0, pre: Seq::empty(), build: Seq::empty() }),
    {
        let i = info.get_info();
        PackageBuilder { scope: i.scope, name: i.name, version: SemVer::new(0, 0, 0) }
    }
}

impl PartialEq for PackageBuilder {
    fn eq(&self, other: &PackageBuilder) -> (r: bool) {
        self.scope == other.scope && self.name == other.name && self.version == other.version
    }
}

impl vstd::std_specs::cmp::PartialEqSpecImpl for PackageBuilder {
    open spec fn obeys_eq_spec() -> bool {
        true
    }

    open spec fn eq_spec(&self, other: &PackageBuilder) -> bool {
        self.scope@ == other.scope@ && self.name@ == other.name@ && self.version@ == other.version@
    }
}

impl Eq for PackageBuilder {}

impl GetInfo for PackageBuilder {
    open spec fn info_scope(&self) -> Seq<char> {
        self.scope@
    }

    open spec fn info_name(&self) -> Seq<char> {
        self.name@
    }

    fn get_info(&self) -> (r: Info) {
        Info { scope: self.scope.clone(), name: self.name.clone() }
    }
}

/// Where an npm-compatible version can be downloaded, and its digests.
#[derive(Debug, Clone, PartialEq, Eq)]
pub struct NpmCompDist {
    /// The tarball URL, in canonical form.
    pub tarball: String,
    pub shasum: String,
    pub integrity: String,
}

pub struct NpmCompDistView {
    pub tarball: Seq<char>,
    pub shasum: Seq<char>,
    pub integrity: Seq<char>,
}

impl View for NpmCompDist {
    type V = NpmCompDistView;

    open spec fn view(&self) -> NpmCompDistView {
        NpmCompDistView { tarball: self.tarball@, shasum: self.shasum@, integrity: self.integrity@ }
    }
}

impl JsonDecode for NpmCompDist {
    /// An object with an absolute URL `tarball` and string `shasum` and `integrity`.
    open spec fn decoded(j: JsonView) -> Option<NpmCompDistView> {
        let tarball = url_member(j, "tarball"@);
        let shasum = str_member(j, "shasum"@);
        let integrity = str_member(j, "integrity"@);
        if tarball is Some && shasum is Some && integrity is Some {
            Some(NpmCompDistView { tarball: tarball->0, shasum: shasum->0, integrity: integrity->0 })
        } else {
            None
        }
    }

    fn from_json(j: &Json) -> (r: Result<NpmCompDist, DecodeError>) {
        let tarball = get_url(j, "tarball")?;
        let shasum = get_str(j, "shasum")?;
        let integrity = get_str(j, "integrity")?;
        Ok(NpmCompDist { tarball, shasum, integrity })
    }
}

impl View for VersionRange {
    type V = Seq<char>;

    open spec fn view(&self) -> Seq<char> {
        self.text@
    }
}

impl JsonDecode for VersionRange {
    /// A string that is a version requirement, in canonical form.
    open spec fn decoded(j: JsonView) -> Option<Seq<char>> {
        match str_of(j) {
            Some(s) => version_req_canonical(s),
            None => None,
        }
    }

    fn from_json(j: &Json) -> (r: Result<VersionRange, DecodeError>) {
        match j {
            Json::Str(s) => match VersionRange::parse(s.as_str()) {
                Some(v) => Ok(v),
                None => Err(mismatch("dependencies")),
            },
            _ => Err(mismatch("dependencies")),
        }
    }
}

/// The npm-compatible record of one version.
#[derive(Debug, Clone, PartialEq, Eq)]
pub struct NpmCompPackage {
    /// The flattened identifier `@<provider>/<scope>__<name>`.
    pub name: String,
    pub version: SemVer,
    pub description: String,
    pub dist: NpmCompDist,
    /// Dependency names and the version ranges they accept.
    pub dependencies: Vec<(String, VersionRange)>,
}

pub struct NpmCompPackageView {
    pub name: Seq<char>,
    pub version: SemVerView,
    pub description: Seq<char>,
    pub dist: NpmCompDistView,
    pub dependencies: Seq<(Seq<char>, Seq<char>)>,
}

impl View for NpmCompPackage {
    type V = NpmCompPackageView;

    open spec fn view(&self) -> NpmCompPackageView {
        NpmCompPackageView {
            name: self.name@,
            version: self.version@,
            description: self.description@,
            dist: self.dist@,
            dependencies: named_view(self.dependencies@),
        }
    }
}

impl JsonDecode for NpmCompPackage {
    open spec fn decoded(j: JsonView) -> Option<NpmCompPackageView> {
        let name = str_member(j, "name"@);
        let version = version_member(j, "version"@);
        let description = str_member(j, "description"@);
        let dist = member(j, "dist"@);
        let deps = named_member::<VersionRange>(j, "dependencies"@);
        if name is Some && version is Some && description is Some && dist is Some
            && NpmCompDist::decoded(dist->0) is Some && deps is Some {
            Some(NpmCompPackageView {
                name: name->0,
                version: version->0,
                description: description->0,
                dist: NpmCompDist::decoded(dist->0)->0,
                dependencies: deps->0,
            })
        } else {
            None
        }
    }

    fn from_json(j: &Json) -> (r: Result<NpmCompPackage, DecodeError>) {
        let name = get_str(j, "name")?;
        let version = get_version(j, "version")?;
        let description = get_str(j, "description")?;
        let dist = match get_member(j, "dist") {
            Some(d) => NpmCompDist::from_json(d)?,
            None => return Err(mismatch("dist")),
        };
        let dependencies = get_named::<VersionRange>(j, "dependencies")?;
        Ok(NpmCompPackage { name, version, description, dist, dependencies })
    }
}

} // verus!
