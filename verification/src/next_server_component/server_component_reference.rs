//! The edge to a module that is wrapped as a server component.

use vstd::prelude::*;
use crate::chunk::{ChunkingModel, ChunkingType};
use crate::reference::{ModuleReference, ReferenceKind};
use crate::resolve::ModuleResolveResult;

verus! {

/// A reference to the one module that a server component wraps.
#[derive(Clone, Copy, Debug, PartialEq, Eq, Hash)]
pub struct NextServerComponentModuleReference<M> {
    asset: M,
}

impl<M: Copy> NextServerComponentModuleReference<M> {
    /// The module that the reference was made with.
    pub closed spec fn asset(&self) -> M {
        self.asset
    }

    /// The reference to `asset`.
    pub fn new(asset: M) -> (reference: Self)
        ensures
            reference.asset() == asset,
    {
        NextServerComponentModuleReference { asset }
    }

    /// The same reference as an edge of kind `ComponentWrapper`.
    pub fn edge(&self) -> (edge: ModuleReference<M>)
        ensures
            edge.target() == self.asset(),
            edge.kind() == ReferenceKind::ComponentWrapper,
    {
        ModuleReference::new(self.asset, ReferenceKind::ComponentWrapper)
    }

    /// The label of the reference, given the outcome of asking the module for
    /// its name: the words for a server component, a space and the name. An
    /// error of the module is handed on as it came.
    pub fn to_string<E>(&self, ident: Result<String, E>) -> (label: Result<String, E>)
        ensures
            match ident {
                Ok(name) => label matches Ok(text) && text@
                    == ReferenceKind::ComponentWrapper.label(name@),
                Err(error) => label == Err::<String, E>(error),
            },
    {
        self.edge().describe_lookup(ident)
    }

    /// Resolves the reference: to the module it was made with, and to no
    /// other.
    pub fn resolve_reference(&self) -> (result: ModuleResolveResult<M>)
        ensures
            result@ == seq![self.asset()],
    {
        self.edge().resolve()
    }

    /// The treatment by the chunking pass: always shared, asynchronous with
    /// the module, and grouped with nothing else.
    pub fn chunking_type(&self) -> (chunking: Option<ChunkingType>)
        ensures
            chunking matches Some(c) && c@ == (ChunkingModel::Shared {
                inherit_async: true,
                merge_tag: None,
            }),
    {
        Some(self.edge().classify())
    }
}

} // verus!
