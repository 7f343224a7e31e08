//! Module graph records (version two): per-file lists of import and export
//! dependencies with their source ranges.
use vstd::prelude::*;
use crate::error::DecodeError;
use crate::json::{get_member, get_str, json_uint, member, mismatch, str_member, uint_of, Json, JsonView};
use crate::text::chars_eq;

verus! {

/// Whether a dependency comes from an `import` statement or an `import()` call.
#[derive(Debug, Clone, Copy, PartialEq, Eq, Structural)]
pub enum DependencyType {
    Static,
    Dynamic,
}

/// Whether a dependency is imported or re-exported.
#[derive(Debug, Clone, Copy, PartialEq, Eq, Structural)]
pub enum DependencyKind {
    Import,
    Export,
}

/// A dependency of one file.
#[derive(Debug)]
pub struct Dependency {
    /// `type` on the wire.
    pub dependency_type: DependencyType,
    pub kind: DependencyKind,
    /// The module path as written.
    pub specifier: String,
    /// Start and end of the specifier in the source, as (line, column) pairs
    /// whose meaning the registry does not document.
    pub specifier_range: ((u32, u32), (u32, u32)),
}

pub struct DependencyView {
    pub dependency_type: DependencyType,
    pub kind: DependencyKind,
    pub specifier: Seq<char>,
    pub specifier_range: ((u32, u32), (u32, u32)),
}

impl View for Dependency {
    type V = DependencyView;

    open spec fn view(&self) -> DependencyView {
        DependencyView {
            dependency_type: self.dependency_type,
            kind: self.kind,
            specifier: self.specifier@,
            specifier_range: self.specifier_range,
        }
    }
}

/// The dependencies of one file.
#[derive(Debug, Clone, PartialEq, Eq)]
pub struct ModuleGraph2 {
    /// Absent when the registry lists none.
    pub dependencies: Option<Vec<Dependency>>,
}

pub struct ModuleGraph2View {
    pub dependencies: Option<Seq<DependencyView>>,
}

impl View for ModuleGraph2 {
    type V = ModuleGraph2View;

    open spec fn view(&self) -> ModuleGraph2View {
        ModuleGraph2View {
            dependencies: match self.dependencies {
                Some(d) => Some(d@.map_values(|x: Dependency| x@)),
                None => None,
            },
        }
    }
}

/// Order of two integers.
pub open spec fn int_cmp(a: u32, b: u32) -> core::cmp::Ordering {
    if a < b {
        core::cmp::Ordering::Less
    } else if a > b {
        core::cmp::Ordering::Greater
    } else {
        core::cmp::Ordering::Equal
    }
}

/// Lexicographic order of two (line, column) ranges: start first, then end.
pub open spec fn range_cmp(a: ((u32, u32), (u32, u32)), b: ((u32, u32), (u32, u32))) -> core::cmp::Ordering {
    if a.0.0 != b.0.0 {
        int_cmp(a.0.0, b.0.0)
    } else if a.0.1 != b.0.1 {
        int_cmp(a.0.1, b.0.1)
    } else if a.1.0 != b.1.0 {
        int_cmp(a.1.0, b.1.0)
    } else {
        int_cmp(a.1.1, b.1.1)
    }
}

fn cmp_u32(a: u32, b: u32) -> (r: core::cmp::Ordering)
    ensures
        r == int_cmp(a, b),
{
    if a < b {
        core::cmp::Ordering::Less
    } else if a > b {
        core::cmp::Ordering::Greater
    } else {
        core::cmp::Ordering::Equal
    }
}

impl Dependency {
    /// Compares two dependencies by their specifier ranges alone.
    pub fn cmp_range(&self, other: &Dependency) -> (r: core::cmp::Ordering)
        ensures
            r == range_cmp(self.specifier_range, other.specifier_range),
    {
        let (a, b) = (self.specifier_range, other.specifier_range);
        if a.0.0 != b.0.0 {
            cmp_u32(a.0.0, b.0.0)
        } else if a.0.1 != b.0.1 {
            cmp_u32(a.0.1, b.0.1)
        } else if a.1.0 != b.1.0 {
            cmp_u32(a.1.0, b.1.0)
        } else {
            cmp_u32(a.1.1, b.1.1)
        }
    }
}

impl Clone for Dependency {
    fn clone(&self) -> (r: Dependency)
        ensures
            r@ == self@,
    {
        Dependency {
            dependency_type: self.dependency_type,
            kind: self.kind,
            specifier: self.specifier.clone(),
            specifier_range: self.specifier_range,
        }
    }
}

impl PartialEq for Dependency {
    fn eq(&self, other: &Dependency) -> (r: bool) {
        self.dependency_type == other.dependency_type && self.kind == other.kind
            && self.specifier == other.specifier
            && self.specifier_range.0.0 == other.specifier_range.0.0
            && self.specifier_range.0.1 == other.specifier_range.0.1
            && self.specifier_range.1.0 == other.specifier_range.1.0
            && self.specifier_range.1.1 == other.specifier_range.1.1
    }
}

impl vstd::std_specs::cmp::PartialEqSpecImpl for Dependency {
    open spec fn obeys_eq_spec() -> bool {
        true
    }

    open spec fn eq_spec(&self, other: &Dependency) -> bool {
        self@ == other@
    }
}

impl Eq for Dependency {}

impl PartialOrd for Dependency {
    fn partial_cmp(&self, other: &Dependency) -> (r: Option<core::cmp::Ordering>) {
        Some(self.cmp_range(other))
    }
}

impl vstd::std_specs::cmp::PartialOrdSpecImpl for Dependency {
    open spec fn obeys_partial_cmp_spec() -> bool {
        true
    }

    open spec fn partial_cmp_spec(&self, other: &Dependency) -> Option<core::cmp::Ordering> {
        Some(range_cmp(self.specifier_range, other.specifier_range))
    }
}

/// The `type` of a dependency on the wire: `static` or `dynamic`.
pub open spec fn dependency_type_of(t: Seq<char>) -> Option<DependencyType> {
    if t == "static"@ {
        Some(DependencyType::Static)
    } else if t == "dynamic"@ {
        Some(DependencyType::Dynamic)
    } else {
        None
    }
}

/// The `kind` of a dependency on the wire: `import` or `export`.
pub open spec fn dependency_kind_of(t: Seq<char>) -> Option<DependencyKind> {
    if t == "import"@ {
        Some(DependencyKind::Import)
    } else if t == "export"@ {
        Some(DependencyKind::Export)
    } else {
        None
    }
}

/// A pair `[a, b]` of integers that fit in `u32`.
pub open spec fn u32_pair_of(j: JsonView) -> Option<(u32, u32)> {
    match j {
        JsonView::Array(s) => if s.len() == 2 && uint_of(s[0], u32::MAX as int) is Some
            && uint_of(s[1], u32::MAX as int) is Some {
            Some((uint_of(s[0], u32::MAX as int)->0 as u32, uint_of(s[1], u32::MAX as int)->0 as u32))
        } else {
            None
        },
        _ => None,
    }
}

/// A range `[[a, b], [c, d]]`.
pub open spec fn range_of(j: JsonView) -> Option<((u32, u32), (u32, u32))> {
    match j {
        JsonView::Array(s) => if s.len() == 2 && u32_pair_of(s[0]) is Some && u32_pair_of(s[1]) is Some {
            Some((u32_pair_of(s[0])->0, u32_pair_of(s[1])->0))
        } else {
            None
        },
        _ => None,
    }
}

/// The dependency that a wire object stands for.
pub open spec fn dependency_of(j: JsonView) -> Option<DependencyView> {
    let t = str_member(j, "type"@);
    let k = str_member(j, "kind"@);
    let s = str_member(j, "specifier"@);
    let r = member(j, "specifierRange"@);
    if t is Some && dependency_type_of(t->0) is Some && k is Some && dependency_kind_of(k->0) is Some
        && s is Some && r is Some && range_of(r->0) is Some {
        Some(DependencyView {
            dependency_type: dependency_type_of(t->0)->0,
            kind: dependency_kind_of(k->0)->0,
            specifier: s->0,
            specifier_range: range_of(r->0)->0,
        })
    } else {
        None
    }
}

/// Whether every item of `items` is a dependency.
pub open spec fn all_dependencies(items: Seq<JsonView>) -> bool {
    forall|i: int| 0 <= i < items.len() ==> (#[trigger] dependency_of(items[i])) is Some
}

/// The module graph that a wire object stands for: `dependencies` may be absent
/// or null.
pub open spec fn module_graph2_of(j: JsonView) -> Option<ModuleGraph2View> {
    if !(j is Object) {
        None
    } else {
        match member(j, "dependencies"@) {
            None => Some(ModuleGraph2View { dependencies: None }),
            Some(JsonView::Null) => Some(ModuleGraph2View { dependencies: None }),
            Some(JsonView::Array(items)) => if all_dependencies(items) {
                Some(ModuleGraph2View {
                    dependencies: Some(Seq::new(items.len(), |i: int| dependency_of(items[i])->0)),
                })
            } else {
                None
            },
            _ => None,
        }
    }
}

fn u32_pair(j: &Json) -> (r: Option<(u32, u32)>)
    ensures
        r == u32_pair_of(j@),
{
    match j {
        Json::Array(items) => {
            if items.len() != 2 {
                return None;
            }
            assert(j@->Array_0[0] == items@[0]@ && j@->Array_0[1] == items@[1]@);
            match (json_uint(&items[0], u32::MAX as u64), json_uint(&items[1], u32::MAX as u64)) {
                (Some(a), Some(b)) => Some((a as u32, b as u32)),
                _ => None,
            }
        },
        _ => None,
    }
}

fn range(j: &Json) -> (r: Option<((u32, u32), (u32, u32))>)
    ensures
        r == range_of(j@),
{
    match j {
        Json::Array(items) => {
            if items.len() != 2 {
                return None;
            }
            assert(j@->Array_0[0] == items@[0]@ && j@->Array_0[1] == items@[1]@);
            match (u32_pair(&items[0]), u32_pair(&items[1])) {
                (Some(a), Some(b)) => Some((a, b)),
                _ => None,
            }
        },
        _ => None,
    }
}

impl Dependency {
    /// Reads a dependency from its wire object.
    pub fn from_json(j: &Json) -> (r: Result<Dependency, DecodeError>)
        ensures
            r matches Ok(d) ==> dependency_of(j@) == Some(d@),
            r is Err ==> dependency_of(j@) is None && r->Err_0 is Mismatch,
    {
        let t = get_str(j, "type")?;
        let dependency_type = if chars_eq(t.as_str(), "static") {
            DependencyType::Static
        } else if chars_eq(t.as_str(), "dynamic") {
            DependencyType::Dynamic
        } else {
            return Err(mismatch("type"));
        };
        let k = get_str(j, "kind")?;
        let kind = if chars_eq(k.as_str(), "import") {
            DependencyKind::Import
        } else if chars_eq(k.as_str(), "export") {
            DependencyKind::Export
        } else {
            return Err(mismatch("kind"));
        };
        let specifier = get_str(j, "specifier")?;
        let specifier_range = match get_member(j, "specifierRange") {
            Some(r) => match range(r) {
                Some(x) => x,
                None => return Err(mismatch("specifierRange")),
            },
            None => return Err(mismatch("specifierRange")),
        };
        Ok(Dependency { dependency_type, kind, specifier, specifier_range })
    }
}

impl ModuleGraph2 {
    /// Reads a module graph record from its wire object.
    pub fn from_json(j: &Json) -> (r: Result<ModuleGraph2, DecodeError>)
        ensures
            r matches Ok(g) ==> module_graph2_of(j@) == Some(g@),
            r is Err ==> module_graph2_of(j@) is None && r->Err_0 is Mismatch,
    {
        if !matches!(j, Json::Object(_)) {
            return Err(mismatch("dependencies"));
        }
        match get_member(j, "dependencies") {
            None => Ok(ModuleGraph2 { dependencies: None }),
            Some(Json::Null) => Ok(ModuleGraph2 { dependencies: None }),
            Some(Json::Array(items)) => {
                let ghost jitems = member(j@, "dependencies"@)->0->Array_0;
                let mut out: Vec<Dependency> = Vec::new();
                let mut i: usize = 0;
                while i < items.len()
                    invariant
                        jitems == Json::Array(*items)@->Array_0,
                        member(j@, "dependencies"@) == Some(JsonView::Array(jitems)),
                        j@ is Object,
                        i <= items.len(),
                        out.len() == i,
                        forall|k: int| 0 <= k < i ==> dependency_of(jitems[k]) == Some((#[trigger] out@[k])@),
                    decreases items.len() - i,
                {
                    assert(jitems[i as int] == items@[i as int]@);
                    match Dependency::from_json(&items[i]) {
                        Ok(d) => out.push(d),
                        Err(e) => {
                            assert(dependency_of(jitems[i as int]) is None);
                            assert(!all_dependencies(jitems));
                            assert(module_graph2_of(j@) is None);
                            return Err(e);
                        },
                    }
                    i += 1;
                }
                let g = ModuleGraph2 { dependencies: Some(out) };
                assert forall|k: int| 0 <= k < jitems.len() implies (#[trigger] dependency_of(jitems[k])) is Some by {
                    assert(dependency_of(jitems[k]) == Some(out@[k]@));
                }
                assert(all_dependencies(jitems));
                assert(out@.map_values(|x: Dependency| x@) =~= Seq::new(jitems.len(), |k: int| dependency_of(jitems[k])->0));
                Ok(g)
            },
            Some(_) => Err(mismatch("dependencies")),
        }
    }
}

} // verus!
