//! The merge tags: the fixed strings by which the chunking pass groups
//! references into one shared chunk.
//!
//! Two references share a chunk exactly when their tags are equal as strings,
//! so a tag is always taken from here and never written out where it is used.

use vstd::prelude::*;
use vstd::string::StringExecFns;

verus! {

/// The tag under which every shared server utility is grouped.
pub const NEXT_SERVER_UTILITY_MERGE_TAG: &'static str = "next-server-utility";

/// The characters of [`NEXT_SERVER_UTILITY_MERGE_TAG`].
pub open spec fn next_server_utility_merge_tag_text() -> Seq<char> {
    NEXT_SERVER_UTILITY_MERGE_TAG@
}

/// An owned copy of the tag for shared server utilities.
pub fn next_server_utility_merge_tag() -> (tag: String)
    ensures
        tag@ == next_server_utility_merge_tag_text(),
{
    String::from_str(NEXT_SERVER_UTILITY_MERGE_TAG)
}

} // verus!
