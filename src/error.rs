//! What can go wrong in the guest environment. Each of these ends the guest
//! run: a run produces a complete result or none.

use vstd::prelude::*;

verus! {

/// Why an operation of the guest environment could not be carried out.
#[derive(Debug, Clone, Copy, PartialEq, Eq, Structural)]
pub enum EnvError {
    /// A read came before the host had handed over the initial input.
    InputPending,
    /// Every value that the host supplied has been read.
    InputExhausted,
    /// The encoded data does not fit in what is left of its memory region.
    RegionFull,
    /// The host replied with something other than the protocol allows.
    MalformedReply,
}

} // verus!
