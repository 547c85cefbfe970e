//! Guest memory is little-endian: a word's bytes are stored low byte first.

use vstd::prelude::*;

verus! {

/// Byte `k` (0 to 3, low byte first) of the word `w`.
pub open spec fn le_byte(w: u32, k: int) -> u8 {
    if k == 0 {
        (w % 256) as u8
    } else if k == 1 {
        ((w / 256) % 256) as u8
    } else if k == 2 {
        ((w / 65536) % 256) as u8
    } else {
        (w / 16777216) as u8
    }
}

/// The bytes of a word sequence as it lies in guest memory.
pub open spec fn le_bytes(ws: Seq<u32>) -> Seq<u8> {
    Seq::new(4 * ws.len(), |i: int| le_byte(ws[i / 4], i % 4))
}

/// The word whose bytes are `b[4 * i]` to `b[4 * i + 3]`, low byte first.
pub open spec fn le_word(b: Seq<u8>, i: int) -> u32 {
    (b[4 * i] as int + 256 * b[4 * i + 1] as int + 65536 * b[4 * i + 2] as int + 16777216 * b[4
        * i + 3] as int) as u32
}

/// The words that a byte sequence of whole words holds.
pub open spec fn le_words(b: Seq<u8>) -> Seq<u32> {
    Seq::new(b.len() / 4, |i: int| le_word(b, i))
}

/// The bytes of `a + b` are the bytes of `a` followed by those of `b`.
pub proof fn lemma_le_bytes_concat(a: Seq<u32>, b: Seq<u32>)
    ensures
        le_bytes(a + b) == le_bytes(a) + le_bytes(b),
{
    let l = le_bytes(a + b);
    let r = le_bytes(a) + le_bytes(b);
    assert forall|i: int| 0 <= i < l.len() implies l[i] == r[i] by {
        if i < 4 * a.len() {
            assert(i / 4 < a.len());
        } else {
            let j = i - 4 * a.len();
            assert(j / 4 == i / 4 - a.len() && j % 4 == i % 4);
        }
    }
    assert(l =~= r);
}

/// Lays out words as bytes, low byte first.
pub fn bytes_of_words(ws: &Vec<u32>) -> (r: Vec<u8>)
    requires
        4 * ws@.len() <= usize::MAX,
    ensures
        r@ == le_bytes(ws@),
{
    let mut r: Vec<u8> = Vec::with_capacity(4 * ws.len());
    let mut i: usize = 0;
    while i < ws.len()
        invariant
            i <= ws@.len(),
            4 * ws@.len() <= usize::MAX,
            r@.len() == 4 * i,
            forall|j: int| 0 <= j < 4 * i ==> r@[j] == le_byte(ws@[j / 4], j % 4),
        decreases ws@.len() - i,
    {
        let w = ws[i];
        r.push((w % 256) as u8);
        r.push(((w / 256) % 256) as u8);
        r.push(((w / 65536) % 256) as u8);
        r.push((w / 16777216) as u8);
        assert forall|j: int| 0 <= j < 4 * (i + 1) implies r@[j] == le_byte(ws@[j / 4], j % 4) by {
            if j >= 4 * i {
                assert(j / 4 == i as int);
                assert(j % 4 == j - 4 * i);
            }
        }
        i = i + 1;
    }
    assert(r@ =~= le_bytes(ws@));
    r
}

/// Packs bytes into words, low byte first.
pub fn words_of_bytes(b: &Vec<u8>) -> (r: Vec<u32>)
    requires
        b@.len() % 4 == 0,
    ensures
        r@ == le_words(b@),
{
    let len: usize = b.len();
    let n = len / 4;
    let mut r: Vec<u32> = Vec::with_capacity(n);
    let mut i: usize = 0;
    while i < n
        invariant
            len == b@.len(),
            n == b@.len() / 4,
            b@.len() % 4 == 0,
            i <= n,
            r@.len() == i,
            forall|j: int| 0 <= j < i ==> r@[j] == le_word(b@, j),
        decreases n - i,
    {
        assert(4 * i + 3 < b@.len()) by (nonlinear_arith)
            requires
                i < n,
                n == b@.len() / 4,
                b@.len() % 4 == 0,
        ;
        let w: u32 = b[4 * i] as u32 + 256 * (b[4 * i + 1] as u32) + 65536 * (b[4 * i + 2] as u32)
            + 16777216 * (b[4 * i + 3] as u32);
        r.push(w);
        i = i + 1;
    }
    assert(r@ =~= le_words(b@));
    r
}

} // verus!
