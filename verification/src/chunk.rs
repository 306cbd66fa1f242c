//! How the chunking pass has to treat a reference.

use vstd::prelude::*;

verus! {

/// The treatment of one reference by the chunking pass.
#[derive(Clone, Debug, PartialEq, Eq)]
pub enum ChunkingType {
    /// The target gets a chunk of its own.
    Isolated,
    /// The target may share a chunk with others.
    Shared {
        /// Whether the chunk that holds the target counts as asynchronous
        /// whenever the target is.
        inherit_async: bool,
        /// The tag that groups references into one chunk. Without a tag the
        /// reference is grouped with nothing else.
        merge_tag: Option<String>,
    },
}

/// The mathematical value of a [`ChunkingType`]: the same cases, with the tag
/// as a sequence of characters.
pub ghost enum ChunkingModel {
    Isolated,
    Shared { inherit_async: bool, merge_tag: Option<Seq<char>> },
}

impl View for ChunkingType {
    type V = ChunkingModel;

    open spec fn view(&self) -> ChunkingModel {
        match *self {
            ChunkingType::Isolated => ChunkingModel::Isolated,
            ChunkingType::Shared { inherit_async, merge_tag } => ChunkingModel::Shared {
                inherit_async,
                merge_tag: match merge_tag {
                    Some(tag) => Some(tag@),
                    None => None,
                },
            },
        }
    }
}

} // verus!
