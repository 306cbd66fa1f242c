//! What resolving a reference yields.

use vstd::prelude::*;

verus! {

/// The modules that a reference resolves to, in order.
///
/// `M` is the handle by which the graph names a module. A handle is carried
/// through and never looked into, so two results hold the same module exactly
/// when they hold the same handle.
#[derive(Clone, Debug, PartialEq, Eq)]
pub struct ModuleResolveResult<M> {
    pub primary: Vec<M>,
}

impl<M> View for ModuleResolveResult<M> {
    type V = Seq<M>;

    open spec fn view(&self) -> Seq<M> {
        self.primary@
    }
}

impl<M> ModuleResolveResult<M> {
    /// The result that holds `module` and nothing else.
    pub fn module(module: M) -> (result: Self)
        ensures
            result@ == seq![module],
    {
        let mut primary: Vec<M> = Vec::new();
        primary.push(module);
        assert(primary@ =~= seq![module]);
        ModuleResolveResult { primary }
    }
}

} // verus!
