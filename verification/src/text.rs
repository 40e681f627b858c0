//! Strings as sequences of characters, and sections made of blocks.

use vstd::prelude::*;
use vstd::seq_lib::*;

verus! {

/// The text of an optional string.
pub open spec fn opt_text(text: Option<String>) -> Option<Seq<char>> {
    match text {
        Some(t) => Some(t@),
        None => None,
    }
}

/// The text of each string, in order.
pub open spec fn texts(strings: Seq<String>) -> Seq<Seq<char>> {
    Seq::new(strings.len(), |i: int| strings[i]@)
}

/// A section is its blocks one after the other, so block `i` stands in it
/// right after all the blocks before `i` and right before all those after.
pub proof fn lemma_block_in_place<A>(blocks: Seq<Seq<A>>, i: int)
    requires
        0 <= i < blocks.len(),
    ensures
        blocks.flatten() == blocks.take(i).flatten() + blocks[i] + blocks.skip(i + 1).flatten(),
{
    let before = blocks.take(i);
    let after = blocks.skip(i + 1);
    assert(blocks =~= before.push(blocks[i]) + after);
    lemma_flatten_concat(before.push(blocks[i]), after);
    before.lemma_flatten_push(blocks[i]);
}

} // verus!
