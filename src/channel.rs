//! Replies of the channel transport. The transport itself blocks until the
//! host answers and hands back a word buffer with a byte length; what the
//! guest makes of such a reply is decided here.

use crate::error::EnvError;
use crate::words::{le_byte, le_bytes};
use vstd::prelude::*;

verus! {

/// Byte `k` (0 to 3, low byte first) of the word `w`.
fn byte_of(w: u32, k: usize) -> (r: u8)
    requires
        k < 4,
    ensures
        r == le_byte(w, k as int),
{
    if k == 0 {
        (w % 256) as u8
    } else if k == 1 {
        ((w / 256) % 256) as u8
    } else if k == 2 {
        ((w / 65536) % 256) as u8
    } else {
        (w / 16777216) as u8
    }
}

/// Checks a reply of the transport: its byte length must lie within the
/// words it came with. A good reply is handed back as it came.
pub fn send_recv_as_u32(words: Vec<u32>, len: usize) -> (r: Result<(Vec<u32>, usize), EnvError>)
    ensures
        r is Ok <==> len <= 4 * words@.len(),
        match r {
            Ok((w, n)) => w@ == words@ && n == len,
            Err(e) => e == EnvError::MalformedReply,
        },
{
    if len / 4 > words.len() || (len / 4 == words.len() && len % 4 != 0) {
        Err(EnvError::MalformedReply)
    } else {
        Ok((words, len))
    }
}

/// The bytes of a reply: its words as they lie in memory, cut to the byte
/// length that the host reported.
pub fn send_recv(words: Vec<u32>, len: usize) -> (r: Result<Vec<u8>, EnvError>)
    ensures
        r is Ok <==> len <= 4 * words@.len(),
        match r {
            Ok(b) => b@ == le_bytes(words@).take(len as int),
            Err(e) => e == EnvError::MalformedReply,
        },
{
    let (words, len) = send_recv_as_u32(words, len)?;
    let mut out: Vec<u8> = Vec::with_capacity(len);
    let mut j: usize = 0;
    while j < len
        invariant
            len <= 4 * words@.len(),
            j <= len,
            out@.len() == j,
            forall|i: int| 0 <= i < j ==> out@[i] == le_byte(words@[i / 4], i % 4),
        decreases len - j,
    {
        out.push(byte_of(words[j / 4], j % 4));
        j = j + 1;
    }
    assert(out@ =~= le_bytes(words@).take(len as int));
    Ok(out)
}

/// The cycle count in the host's reply to a cycle-count request, which must
/// be exactly one word.
pub fn get_cycle_count(reply: &Vec<u32>) -> (r: Result<usize, EnvError>)
    ensures
        r is Ok <==> reply@.len() == 1,
        match r {
            Ok(n) => n == reply@[0],
            Err(e) => e == EnvError::MalformedReply,
        },
{
    if reply.len() == 1 {
        Ok(reply[0] as usize)
    } else {
        Err(EnvError::MalformedReply)
    }
}

} // verus!
