//! The reference edge itself: one target module and the kind of wrapping
//! that the edge stands for.

use vstd::prelude::*;
use vstd::string::StringExecFns;
use crate::chunk::{ChunkingModel, ChunkingType};
use crate::merge_tag::{next_server_utility_merge_tag, next_server_utility_merge_tag_text};
use crate::resolve::ModuleResolveResult;

verus! {

/// What a label of a server component starts with.
pub const COMPONENT_WRAPPER_PREFIX: &'static str = "Next.js Server Component";

/// What a label of a shared server utility starts with.
pub const SHARED_UTILITY_PREFIX: &'static str = "Next.js server utility";

/// The kinds of synthetic edge. The kind alone decides the label's prefix and
/// the merge tag.
#[derive(Clone, Copy, Debug, PartialEq, Eq, Structural, Hash)]
pub enum ReferenceKind {
    /// The target is wrapped as a server-only component.
    ComponentWrapper,
    /// The target is a utility shared by the server side.
    SharedUtility,
}

impl ReferenceKind {
    /// The characters that a label of this kind starts with.
    pub open spec fn prefix_text(self) -> Seq<char> {
        match self {
            ReferenceKind::ComponentWrapper => COMPONENT_WRAPPER_PREFIX@,
            ReferenceKind::SharedUtility => SHARED_UTILITY_PREFIX@,
        }
    }

    /// The merge tag of this kind, if it has one.
    pub open spec fn merge_tag_text(self) -> Option<Seq<char>> {
        match self {
            ReferenceKind::ComponentWrapper => None,
            ReferenceKind::SharedUtility => Some(next_server_utility_merge_tag_text()),
        }
    }

    /// The treatment of every edge of this kind: shared, asynchronous with its
    /// target, under the kind's merge tag.
    pub open spec fn classification(self) -> ChunkingModel {
        ChunkingModel::Shared { inherit_async: true, merge_tag: self.merge_tag_text() }
    }

    /// The label of an edge of this kind whose target calls itself `ident`:
    /// the prefix, one space, then `ident`.
    pub open spec fn label(self, ident: Seq<char>) -> Seq<char> {
        self.prefix_text() + seq![' '] + ident
    }

    /// The prefix of this kind's labels.
    pub fn prefix(self) -> (prefix: &'static str)
        ensures
            prefix@ == self.prefix_text(),
    {
        match self {
            ReferenceKind::ComponentWrapper => COMPONENT_WRAPPER_PREFIX,
            ReferenceKind::SharedUtility => SHARED_UTILITY_PREFIX,
        }
    }

    /// The merge tag of this kind, taken from the table of tags.
    pub fn merge_tag(self) -> (tag: Option<String>)
        ensures
            tag is Some <==> self.merge_tag_text() is Some,
            tag matches Some(t) ==> Some(t@) == self.merge_tag_text(),
    {
        match self {
            ReferenceKind::ComponentWrapper => None,
            ReferenceKind::SharedUtility => Some(next_server_utility_merge_tag()),
        }
    }
}

/// A directed edge to exactly one target module.
///
/// `M` is the handle by which the graph names a module. The edge keeps the
/// handle it was made with and hands out copies of it; it never looks into
/// it. Neither field can be changed once the edge exists.
#[derive(Clone, Copy, Debug, PartialEq, Eq, Hash)]
pub struct ModuleReference<M> {
    target: M,
    kind: ReferenceKind,
}

impl<M: Copy> ModuleReference<M> {
    /// The target that the edge was made with.
    pub closed spec fn spec_target(&self) -> M {
        self.target
    }

    /// The kind that the edge was made with.
    pub closed spec fn spec_kind(&self) -> ReferenceKind {
        self.kind
    }

    /// What the edge resolves to: its target and nothing else.
    pub open spec fn resolution(&self) -> Seq<M> {
        seq![self.spec_target()]
    }

    /// How the chunking pass has to treat the edge: as its kind says.
    pub open spec fn classification(&self) -> ChunkingModel {
        self.spec_kind().classification()
    }

    /// The label of the edge when its target calls itself `ident`.
    pub open spec fn label(&self, ident: Seq<char>) -> Seq<char> {
        self.spec_kind().label(ident)
    }

    /// The edge of kind `kind` to `target`.
    pub fn new(target: M, kind: ReferenceKind) -> (edge: Self)
        ensures
            edge.spec_target() == target,
            edge.spec_kind() == kind,
    {
        ModuleReference { target, kind }
    }

    /// The target of the edge.
    #[verifier::when_used_as_spec(spec_target)]
    pub fn target(&self) -> (target: M)
        ensures
            target == self.spec_target(),
    {
        self.target
    }

    /// The kind of the edge.
    #[verifier::when_used_as_spec(spec_kind)]
    pub fn kind(&self) -> (kind: ReferenceKind)
        ensures
            kind == self.spec_kind(),
    {
        self.kind
    }

    /// Resolves the edge. The target was fixed when the edge was made, so
    /// there is nothing to search for: the result holds that one handle.
    pub fn resolve(&self) -> (result: ModuleResolveResult<M>)
        ensures
            result@ == self.resolution(),
    {
        ModuleResolveResult::module(self.target)
    }

    /// Says how the chunking pass has to treat the edge. The answer depends on
    /// the kind alone, never on the target.
    pub fn classify(&self) -> (chunking: ChunkingType)
        ensures
            chunking@ == self.classification(),
    {
        ChunkingType::Shared { inherit_async: true, merge_tag: self.kind.merge_tag() }
    }

    /// The label of the edge for diagnostics, given the name `ident` by which
    /// the target calls itself.
    pub fn describe(&self, ident: &str) -> (label: String)
        ensures
            label@ == self.label(ident@),
    {
        let mut label = String::from_str(self.kind.prefix());
        label.append(" ");
        label.append(ident);
        proof {
            reveal_strlit(" ");
            assert(" "@ =~= seq![' ']);
        }
        label
    }

    /// The label of the edge, given the outcome of asking the target for its
    /// name. Where the target could not say its name, its error is handed on
    /// as it came.
    pub fn describe_lookup<E>(&self, ident: Result<String, E>) -> (label: Result<String, E>)
        ensures
            match ident {
                Ok(name) => label matches Ok(text) && text@ == self.label(name@),
                Err(error) => label == Err::<String, E>(error),
            },
    {
        match ident {
            Ok(name) => Ok(self.describe(name.as_str())),
            Err(error) => Err(error),
        }
    }
}

/// An edge is its target and its kind: two edges that agree in both are the
/// same edge.
pub proof fn lemma_edge_is_target_and_kind<M: Copy>(a: ModuleReference<M>, b: ModuleReference<M>)
    requires
        a.target() == b.target(),
        a.kind() == b.kind(),
    ensures
        a == b,
{
}

/// Every edge of kind `ComponentWrapper` is shared, asynchronous with its
/// target, and carries no merge tag.
pub proof fn lemma_component_wrapper_classification<M: Copy>(edge: ModuleReference<M>)
    requires
        edge.kind() == ReferenceKind::ComponentWrapper,
    ensures
        edge.classification() == (ChunkingModel::Shared { inherit_async: true, merge_tag: None }),
{
}

/// Every edge of kind `SharedUtility` is shared, asynchronous with its target,
/// and carries the one tag for server utilities; so any two such edges, to
/// whatever targets, carry equal tags.
pub proof fn lemma_shared_utility_classification<M: Copy, N: Copy>(
    a: ModuleReference<M>,
    b: ModuleReference<N>,
)
    requires
        a.kind() == ReferenceKind::SharedUtility,
        b.kind() == ReferenceKind::SharedUtility,
    ensures
        a.classification() == (ChunkingModel::Shared {
            inherit_async: true,
            merge_tag: Some(next_server_utility_merge_tag_text()),
        }),
        a.classification() == b.classification(),
{
}

/// An edge resolves to exactly one module, and that module is its target.
pub proof fn lemma_resolution_is_the_target<M: Copy>(edge: ModuleReference<M>)
    ensures
        edge.resolution().len() == 1,
        edge.resolution()[0] == edge.target(),
{
}

/// The label is decided by the kind of the edge and the name of the target:
/// edges of one kind give one label for one name, whatever their targets.
pub proof fn lemma_label_is_decided_by_kind_and_name<M: Copy, N: Copy>(
    a: ModuleReference<M>,
    b: ModuleReference<N>,
    ident: Seq<char>,
)
    requires
        a.kind() == b.kind(),
    ensures
        a.label(ident) == b.label(ident),
{
}

/// Classification and resolution have no state of their own: the first is
/// decided by the kind of the edge, the second by its target, so asking
/// again gives the same answer.
pub proof fn lemma_answers_are_decided_by_the_edge<M: Copy>(
    a: ModuleReference<M>,
    b: ModuleReference<M>,
)
    ensures
        a.kind() == b.kind() ==> a.classification() == b.classification(),
        a.target() == b.target() ==> a.resolution() == b.resolution(),
{
}

/// The two kinds never share a label, whatever the targets call themselves,
/// and they differ in their merge tag.
pub proof fn lemma_kinds_are_told_apart(ident_a: Seq<char>, ident_b: Seq<char>)
    ensures
        ReferenceKind::ComponentWrapper.label(ident_a) != ReferenceKind::SharedUtility.label(
            ident_b,
        ),
        ReferenceKind::ComponentWrapper.merge_tag_text()
            != ReferenceKind::SharedUtility.merge_tag_text(),
{
    reveal_strlit("Next.js Server Component");
    reveal_strlit("Next.js server utility");
    let a = ReferenceKind::ComponentWrapper.label(ident_a);
    let b = ReferenceKind::SharedUtility.label(ident_b);
    assert(a[8] == 'S');
    assert(b[8] == 's');
}

} // verus!
