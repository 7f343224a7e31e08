//! The `{scope, name}` pair that identifies a package, and the capability of
//! exposing it.
use vstd::prelude::*;

verus! {

/// A package identity: `dunno` and `object` for `@dunno/object`.
#[derive(Debug, Clone, PartialEq, Eq, PartialOrd, Ord, Hash)]
pub struct Info {
    pub scope: String,
    pub name: String,
}

/// Values that carry a package identity.
pub trait GetInfo {
    /// The scope this value identifies.
    spec fn info_scope(&self) -> Seq<char>;

    /// The name this value identifies.
    spec fn info_name(&self) -> Seq<char>;

    /// A fresh copy of the identity.
    fn get_info(&self) -> (r: Info)
        ensures
            r.scope@ == self.info_scope(),
            r.name@ == self.info_name();
}

impl GetInfo for Info {
    open spec fn info_scope(&self) -> Seq<char> {
        self.scope@
    }

    open spec fn info_name(&self) -> Seq<char> {
        self.name@
    }

    fn get_info(&self) -> (r: Info) {
        Info { scope: self.scope.clone(), name: self.name.clone() }
    }
}

} // verus!
