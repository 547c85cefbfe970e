//! Values supplied by the host, read strictly in the order they were supplied.

use crate::error::EnvError;
use vstd::prelude::*;

verus! {

/// Reads encoded words from the buffer that the host supplied, front to back.
pub struct Reader {
    words: Vec<u32>,
    pos: usize,
}

impl Reader {
    /// Everything the host supplied.
    pub closed spec fn supplied(&self) -> Seq<u32> {
        self.words@
    }

    /// How many words have been read so far.
    pub closed spec fn position(&self) -> nat {
        self.pos as nat
    }

    /// The cursor lies within what was supplied.
    pub closed spec fn wf(&self) -> bool {
        self.pos <= self.words@.len()
    }

    /// The words not read yet, in the order they will be read.
    pub open spec fn remaining(&self) -> Seq<u32> {
        self.supplied().skip(self.position() as int)
    }

    /// A reader at the front of `words`.
    pub fn new(words: Vec<u32>) -> (r: Reader)
        ensures
            r.wf(),
            r.supplied() == words@,
            r.position() == 0,
    {
        Reader { words, pos: 0 }
    }

    /// Reads the next word: the encoding of the next `u32` value.
    pub fn read(&mut self) -> (r: Result<u32, EnvError>)
        requires
            old(self).wf(),
        ensures
            final(self).wf(),
            final(self).supplied() == old(self).supplied(),
            r is Ok <==> old(self).position() < old(self).supplied().len(),
            match r {
                Ok(v) => v == old(self).supplied()[old(self).position() as int]
                    && final(self).position() == old(self).position() + 1 && v == old(
                    self,
                ).remaining()[0] && final(self).remaining() == old(self).remaining().drop_first(),
                Err(e) => e == EnvError::InputExhausted && final(self).position() == old(
                    self,
                ).position(),
            },
    {
        if self.pos < self.words.len() {
            let v = self.words[self.pos];
            self.pos = self.pos + 1;
            assert(self.remaining() =~= old(self).remaining().drop_first());
            Ok(v)
        } else {
            Err(EnvError::InputExhausted)
        }
    }

    /// Reads the next `n` words together, or none of them where fewer are left.
    pub fn read_words(&mut self, n: usize) -> (r: Result<Vec<u32>, EnvError>)
        requires
            old(self).wf(),
        ensures
            final(self).wf(),
            final(self).supplied() == old(self).supplied(),
            r is Ok <==> old(self).position() + n <= old(self).supplied().len(),
            match r {
                Ok(v) => v@ == old(self).remaining().take(n as int) && final(self).position()
                    == old(self).position() + n,
                Err(e) => e == EnvError::InputExhausted && final(self).position() == old(
                    self,
                ).position(),
            },
    {
        let len: usize = self.words.len();
        if n > len - self.pos {
            return Err(EnvError::InputExhausted);
        }
        let mut out: Vec<u32> = Vec::with_capacity(n);
        let mut i: usize = 0;
        while i < n
            invariant
                len == self.words@.len(),
                self.pos + n <= len,
                i <= n,
                out@ == self.words@.subrange(self.pos as int, self.pos + i),
            decreases n - i,
        {
            out.push(self.words[self.pos + i]);
            i = i + 1;
            assert(out@ =~= self.words@.subrange(self.pos as int, self.pos + i));
        }
        assert(out@ =~= self.remaining().take(n as int));
        self.pos = self.pos + n;
        Ok(out)
    }
}

} // verus!
