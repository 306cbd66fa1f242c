//! The edge to a utility that the server side shares.

use vstd::prelude::*;
use crate::chunk::{ChunkingModel, ChunkingType};
use crate::merge_tag::next_server_utility_merge_tag_text;
use crate::reference::{ModuleReference, ReferenceKind};
use crate::resolve::ModuleResolveResult;

verus! {

/// A reference to the one module that holds a shared server utility.
#[derive(Clone, Copy, Debug, PartialEq, Eq, Hash)]
pub struct NextServerUtilityModuleReference<M> {
    asset: M,
}

impl<M: Copy> NextServerUtilityModuleReference<M> {
    /// The module that the reference was made with.
    pub closed spec fn asset(&self) -> M {
        self.asset
    }

    /// The reference to `asset`.
    pub fn new(asset: M) -> (reference: Self)
        ensures
            reference.asset() == asset,
    {
        NextServerUtilityModuleReference { asset }
    }

    /// The same reference as an edge of kind `SharedUtility`.
    pub fn edge(&self) -> (edge: ModuleReference<M>)
        ensures
            edge.target() == self.asset(),
            edge.kind() == ReferenceKind::SharedUtility,
    {
        ModuleReference::new(self.asset, ReferenceKind::SharedUtility)
    }

    /// The label of the reference, given the outcome of asking the module for
    /// its name: the words for a server utility, a space and the name. An
    /// error of the module is handed on as it came.
    pub fn to_string<E>(&self, ident: Result<String, E>) -> (label: Result<String, E>)
        ensures
            match ident {
                Ok(name) => label matches Ok(text) && text@
                    == ReferenceKind::SharedUtility.label(name@),
                Err(error) => label == Err::<String, E>(error),
            },
    {
        self.edge().describe_lookup(ident)
    }

    /// Resolves the reference: to the module it was made with, and to no
    /// other.
    pub fn resolve_reference(&self) -> (result: ModuleResolveResult<M>)
        ensures
            result@ == seq![self.asset()],
    {
        self.edge().resolve()
    }

    /// The treatment by the chunking pass: always shared, asynchronous with
    /// the module, and grouped under the one tag for server utilities.
    pub fn chunking_type(&self) -> (chunking: Option<ChunkingType>)
        ensures
            chunking matches Some(c) && c@ == (ChunkingModel::Shared {
                inherit_async: true,
                merge_tag: Some(next_server_utility_merge_tag_text()),
            }),
    {
        Some(self.edge().classify())
    }
}

} // verus!
