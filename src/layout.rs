//! Sizes and channel numbers that the guest and the host agree on.

use vstd::prelude::*;

verus! {

/// Bytes in a word of guest memory.
pub const WORD_SIZE: usize = 4;

/// Words in a digest, and so in the summary part of the finalization result.
pub const DIGEST_WORDS: usize = 8;

/// Words in the finalization result: the summary, then the journal's byte length.
pub const RESULT_WORDS: usize = 9;

/// Words that the region holding the journal can take.
pub const COMMIT_REGION_WORDS: usize = 0x40000;

/// Words that the region holding one private write can take.
pub const OUTPUT_REGION_WORDS: usize = 0x40000;

/// Channel on which the host hands over the initial input.
pub const CHANNEL_INITIAL_INPUT: u32 = 0;

/// Channel on which written and committed bytes are mirrored to the host.
pub const CHANNEL_STDOUT: u32 = 1;

} // verus!
