//! Messages for the host's debug console.

use vstd::prelude::*;
use vstd::string::StringSliceAdditionalSpecFns;

verus! {

/// The record that the log register is pointed at: the message's bytes,
/// terminated by a NUL byte.
pub fn log(msg: &str) -> (r: Vec<u8>)
    requires
        msg.spec_bytes().len() < usize::MAX,
    ensures
        r@ == msg.spec_bytes().push(0u8),
{
    let b = msg.as_bytes();
    let mut r: Vec<u8> = Vec::with_capacity(b.len() + 1);
    let mut i: usize = 0;
    while i < b.len()
        invariant
            b@ == msg.spec_bytes(),
            i <= b@.len(),
            r@ == b@.take(i as int),
        decreases b@.len() - i,
    {
        r.push(b[i]);
        i = i + 1;
        assert(r@ =~= b@.take(i as int));
    }
    r.push(0);
    assert(r@ =~= msg.spec_bytes().push(0u8));
    r
}

} // verus!
