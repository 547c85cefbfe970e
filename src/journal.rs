//! What the journal and the finalization result are after a run of commits.

use crate::digest::sha256_of;
use crate::env::finalized;
use crate::words::{lemma_le_bytes_concat, le_bytes, le_words};
use vstd::prelude::*;

verus! {

/// The journal after committing each of `commits` in turn, starting empty.
pub open spec fn journal_of(commits: Seq<Seq<u32>>) -> Seq<u32>
    decreases commits.len(),
{
    if commits.len() == 0 {
        Seq::empty()
    } else {
        journal_of(commits.drop_last()) + commits.last()
    }
}

/// The bytes of each commit, one commit after another in commit order.
pub open spec fn committed_bytes(commits: Seq<Seq<u32>>) -> Seq<u8>
    decreases commits.len(),
{
    if commits.len() == 0 {
        Seq::empty()
    } else {
        committed_bytes(commits.drop_last()) + le_bytes(commits.last())
    }
}

/// A further commit of `v` appends `v` to the journal, as `Env::commit` does.
pub proof fn lemma_journal_of_push(commits: Seq<Seq<u32>>, v: Seq<u32>)
    ensures
        journal_of(commits.push(v)) == journal_of(commits) + v,
{
    assert(commits.push(v).drop_last() =~= commits);
}

/// The journal's bytes are the bytes of the commits, in commit order.
pub proof fn lemma_journal_bytes(commits: Seq<Seq<u32>>)
    ensures
        le_bytes(journal_of(commits)) == committed_bytes(commits),
    decreases commits.len(),
{
    if commits.len() == 0 {
        assert(le_bytes(Seq::<u32>::empty()) =~= Seq::<u8>::empty());
    } else {
        lemma_journal_bytes(commits.drop_last());
        lemma_le_bytes_concat(journal_of(commits.drop_last()), commits.last());
    }
}

/// A single commit of at most eight words (32 bytes) is returned as it is:
/// its words padded with zeros to eight, followed by its length in bytes.
pub proof fn lemma_single_small_commit(v: Seq<u32>)
    requires
        v.len() <= 8,
    ensures
        finalized(journal_of(seq![v])) == (v + Seq::new((8 - v.len()) as nat, |i: int| 0u32)).push(
            (4 * v.len()) as u32,
        ),
{
    lemma_journal_of_push(Seq::empty(), v);
    assert(Seq::<Seq<u32>>::empty().push(v) =~= seq![v]);
    assert(Seq::<u32>::empty() + v =~= v);
}

/// Commits of more than eight words (32 bytes) in all are summarised by the
/// digest of all committed bytes in commit order, followed by their total
/// length in bytes.
pub proof fn lemma_large_journal_digested(commits: Seq<Seq<u32>>)
    requires
        journal_of(commits).len() > 8,
    ensures
        finalized(journal_of(commits)) == le_words(sha256_of(committed_bytes(commits))).push(
            (4 * journal_of(commits).len()) as u32,
        ),
{
    lemma_journal_bytes(commits);
}

/// Committing `v1` and then `v2` leaves the journal that committing `v1 + v2`
/// at once leaves, and mirrors the same bytes.
pub proof fn lemma_commits_concatenate(journal: Seq<u32>, v1: Seq<u32>, v2: Seq<u32>)
    ensures
        (journal + v1) + v2 == journal + (v1 + v2),
        le_bytes(v1 + v2) == le_bytes(v1) + le_bytes(v2),
{
    assert((journal + v1) + v2 =~= journal + (v1 + v2));
    lemma_le_bytes_concat(v1, v2);
}

} // verus!
