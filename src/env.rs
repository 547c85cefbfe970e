//! The environment of one guest run: the input reader, the journal of public
//! commits, and the result that the journal is summarised into at the end.

use crate::digest::{sha256, sha256_of};
use crate::error::EnvError;
use crate::layout::{COMMIT_REGION_WORDS, DIGEST_WORDS, OUTPUT_REGION_WORDS};
use crate::reader::Reader;
use crate::words::{bytes_of_words, le_bytes, le_words, words_of_bytes};
use vstd::prelude::*;

verus! {

/// The digest of a journal, as the words it lies in.
pub open spec fn digest_words(journal: Seq<u32>) -> Seq<u32> {
    le_words(sha256_of(le_bytes(journal)))
}

/// The first eight words of the result: a journal of at most eight words as
/// it is, followed by zeros; a longer one by its digest.
pub open spec fn summary(journal: Seq<u32>) -> Seq<u32> {
    if journal.len() <= 8 {
        journal + Seq::new((8 - journal.len()) as nat, |i: int| 0u32)
    } else {
        digest_words(journal)
    }
}

/// The finalization result: the summary, then the journal's length in bytes.
pub open spec fn finalized(journal: Seq<u32>) -> Seq<u32> {
    summary(journal).push((4 * journal.len()) as u32)
}

/// The state of one guest run.
pub struct Env {
    journal: Vec<u32>,
    initial_input_reader: Option<Reader>,
}

impl Env {
    /// The words committed so far, in commit order.
    pub closed spec fn journal(&self) -> Seq<u32> {
        self.journal@
    }

    /// The reader over the initial input, once the host has handed it over.
    pub closed spec fn input(&self) -> Option<Reader> {
        self.initial_input_reader
    }

    /// The journal fits in its region, and the reader is sound.
    pub open spec fn wf(&self) -> bool {
        &&& self.journal().len() <= COMMIT_REGION_WORDS
        &&& match self.input() {
            Some(r) => r.wf(),
            None => true,
        }
    }

    /// A run that has committed nothing and has no input yet.
    pub fn new() -> (r: Env)
        ensures
            r.wf(),
            r.journal() == Seq::<u32>::empty(),
            r.input() is None,
    {
        Env { journal: Vec::new(), initial_input_reader: None }
    }

    /// The number of bytes committed so far.
    pub fn commit_len(&self) -> (r: usize)
        requires
            self.wf(),
        ensures
            r == 4 * self.journal().len(),
    {
        4 * self.journal.len()
    }

    /// The journal as bytes, as the host reads it from the commit region.
    pub fn journal_bytes(&self) -> (r: Vec<u8>)
        requires
            self.wf(),
        ensures
            r@ == le_bytes(self.journal()),
    {
        bytes_of_words(&self.journal)
    }

    /// Whether the initial input has yet to be obtained from the host.
    pub fn input_pending(&self) -> (r: bool)
        ensures
            r == self.input() is None,
    {
        self.initial_input_reader.is_none()
    }

    /// Takes the initial input that the host handed over. The input is taken
    /// once: later calls leave the reader as it is.
    pub fn accept_initial_input(&mut self, words: Vec<u32>)
        requires
            old(self).wf(),
        ensures
            final(self).wf(),
            final(self).journal() == old(self).journal(),
            old(self).input() is Some ==> final(self).input() == old(self).input(),
            old(self).input() is None ==> (final(self).input() matches Some(r) && r.supplied()
                == words@ && r.position() == 0),
    {
        if self.initial_input_reader.is_none() {
            self.initial_input_reader = Some(Reader::new(words));
        }
    }

    /// Reads the next `u32` value that the host supplied.
    pub fn read(&mut self) -> (r: Result<u32, EnvError>)
        requires
            old(self).wf(),
        ensures
            final(self).wf(),
            final(self).journal() == old(self).journal(),
            match old(self).input() {
                None => r == Err::<u32, EnvError>(EnvError::InputPending) && final(self).input()
                    is None,
                Some(o) => final(self).input() matches Some(n) && n.supplied() == o.supplied() && (
                r is Ok <==> o.position() < o.supplied().len()) && match r {
                    Ok(v) => v == o.supplied()[o.position() as int] && n.position()
                        == o.position() + 1 && v == o.remaining()[0] && n.remaining()
                        == o.remaining().drop_first(),
                    Err(e) => e == EnvError::InputExhausted && n.position() == o.position(),
                },
            },
    {
        match &mut self.initial_input_reader {
            Some(reader) => reader.read(),
            None => Err(EnvError::InputPending),
        }
    }

    /// Writes encoded data privately to the host: the data goes through the
    /// output region, and the bytes to send on the mirror channel come back.
    /// The journal is not touched.
    pub fn write(&mut self, data: &Vec<u32>) -> (r: Result<Vec<u8>, EnvError>)
        requires
            old(self).wf(),
        ensures
            *final(self) == *old(self),
            r is Ok <==> data@.len() <= OUTPUT_REGION_WORDS,
            match r {
                Ok(b) => b@ == le_bytes(data@),
                Err(e) => e == EnvError::RegionFull,
            },
    {
        if data.len() > OUTPUT_REGION_WORDS {
            return Err(EnvError::RegionFull);
        }
        Ok(bytes_of_words(data))
    }

    /// Commits encoded data to the journal, after what was committed before,
    /// and gives back the bytes to send on the mirror channel.
    pub fn commit(&mut self, data: &Vec<u32>) -> (r: Result<Vec<u8>, EnvError>)
        requires
            old(self).wf(),
        ensures
            final(self).wf(),
            final(self).input() == old(self).input(),
            r is Ok <==> old(self).journal().len() + data@.len() <= COMMIT_REGION_WORDS,
            match r {
                Ok(b) => b@ == le_bytes(data@) && final(self).journal() == old(self).journal()
                    + data@,
                Err(e) => e == EnvError::RegionFull && final(self).journal() == old(
                    self,
                ).journal(),
            },
    {
        if data.len() > COMMIT_REGION_WORDS - self.journal.len() {
            return Err(EnvError::RegionFull);
        }
        let mut i: usize = 0;
        while i < data.len()
            invariant
                i <= data@.len(),
                self.journal@ == old(self).journal@ + data@.take(i as int),
                old(self).journal@.len() + data@.len() <= COMMIT_REGION_WORDS,
                self.initial_input_reader == old(self).initial_input_reader,
            decreases data@.len() - i,
        {
            self.journal.push(data[i]);
            i = i + 1;
            assert(self.journal@ =~= old(self).journal@ + data@.take(i as int));
        }
        assert(data@.take(data@.len() as int) =~= data@);
        Ok(bytes_of_words(data))
    }

    /// The finalization result: a journal of at most eight words as it is,
    /// padded with zeros, or else its digest; then its length in bytes.
    pub fn finalize(&self) -> (r: Vec<u32>)
        requires
            self.wf(),
        ensures
            r@ == finalized(self.journal()),
    {
        let n = self.journal.len();
        let mut r: Vec<u32>;
        if n <= DIGEST_WORDS {
            r = Vec::with_capacity(9);
            let mut i: usize = 0;
            while i < n
                invariant
                    n == self.journal@.len(),
                    i <= n,
                    r@ == self.journal@.take(i as int),
                decreases n - i,
            {
                r.push(self.journal[i]);
                i = i + 1;
                assert(r@ =~= self.journal@.take(i as int));
            }
            while i < DIGEST_WORDS
                invariant
                    n == self.journal@.len(),
                    n <= i <= DIGEST_WORDS,
                    r@ == self.journal@ + Seq::new((i - n) as nat, |k: int| 0u32),
                decreases DIGEST_WORDS - i,
            {
                r.push(0);
                i = i + 1;
                assert(r@ =~= self.journal@ + Seq::new((i - n) as nat, |k: int| 0u32));
            }
            assert(r@ =~= summary(self.journal@));
        } else {
            let bytes = bytes_of_words(&self.journal);
            let digest = sha256(&bytes);
            r = words_of_bytes(&digest);
        }
        r.push((4 * n) as u32);
        r
    }
}

} // verus!
