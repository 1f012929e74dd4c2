//! Per-buffer state of an allocated queue, and the facts about it that the
//! queue's operations rest on.
use vstd::prelude::*;

verus! {

/// State of one buffer index of an allocated queue.
pub enum BufferState<B> {
    /// Available for a new builder.
    Free,
    /// Submitted to the device; the backing objects of its planes are held
    /// until it comes back.
    Queued(Vec<B>),
}

/// Number of queued entries.
pub open spec fn count_queued<B>(s: Seq<BufferState<B>>) -> nat
    decreases s.len(),
{
    if s.len() == 0 {
        0
    } else {
        count_queued(s.drop_last()) + if s.last() is Queued {
            1nat
        } else {
            0nat
        }
    }
}

/// The backing objects held by the queued entries, in index order.
pub open spec fn queued_handles<B>(s: Seq<BufferState<B>>) -> Seq<Vec<B>>
    decreases s.len(),
{
    if s.len() == 0 {
        seq![]
    } else {
        let rest = queued_handles(s.drop_last());
        match s.last() {
            BufferState::Queued(h) => rest.push(h),
            BufferState::Free => rest,
        }
    }
}

/// The indices whose entry is queued.
pub open spec fn queued_indices<B>(s: Seq<BufferState<B>>) -> Set<int> {
    Set::new(|i: int| 0 <= i < s.len() && s[i] is Queued)
}

pub open spec fn all_free<B>(s: Seq<BufferState<B>>) -> bool {
    forall|i: int| 0 <= i < s.len() ==> #[trigger] s[i] is Free
}

pub proof fn lemma_count_update<B>(s: Seq<BufferState<B>>, i: int, v: BufferState<B>)
    requires
        0 <= i < s.len(),
    ensures
        count_queued(s.update(i, v)) + (if s[i] is Queued { 1int } else { 0int })
            == count_queued(s) + (if v is Queued { 1int } else { 0int }),
    decreases s.len(),
{
    if i == s.len() - 1 {
        assert(s.update(i, v).drop_last() =~= s.drop_last());
    } else {
        assert(s.update(i, v).drop_last() =~= s.drop_last().update(i, v));
        lemma_count_update(s.drop_last(), i, v);
    }
}

pub proof fn lemma_count_le_len<B>(s: Seq<BufferState<B>>)
    ensures
        count_queued(s) <= s.len(),
    decreases s.len(),
{
    if s.len() > 0 {
        lemma_count_le_len(s.drop_last());
    }
}

pub proof fn lemma_all_free_count<B>(s: Seq<BufferState<B>>)
    requires
        all_free(s),
    ensures
        count_queued(s) == 0,
        queued_handles(s).len() == 0,
    decreases s.len(),
{
    if s.len() > 0 {
        assert(s.last() is Free);
        lemma_all_free_count(s.drop_last());
    }
}

/// The queued-buffer count equals the number of distinct queued indices: no
/// index is counted twice.
pub proof fn lemma_queued_indices_count<B>(s: Seq<BufferState<B>>)
    ensures
        queued_indices(s).finite(),
        queued_indices(s).len() == count_queued(s),
    decreases s.len(),
{
    if s.len() == 0 {
        assert(queued_indices(s) =~= Set::<int>::empty());
    } else {
        let t = s.drop_last();
        lemma_queued_indices_count(t);
        let n = s.len() - 1;
        assert(!queued_indices(t).contains(n));
        if s.last() is Queued {
            assert(queued_indices(s) =~= queued_indices(t).insert(n));
        } else {
            assert(queued_indices(s) =~= queued_indices(t));
        }
    }
}

/// Every queued entry contributes its backing objects once.
pub proof fn lemma_handles_len<B>(s: Seq<BufferState<B>>)
    ensures
        queued_handles(s).len() == count_queued(s),
    decreases s.len(),
{
    if s.len() > 0 {
        lemma_handles_len(s.drop_last());
    }
}

/// Sets entry `i` to `s` and returns what it held.
pub(crate) fn replace_state<B>(v: &mut Vec<BufferState<B>>, i: usize, s: BufferState<B>) -> (r:
    BufferState<B>)
    requires
        i < old(v).len(),
    ensures
        final(v)@ == old(v)@.update(i as int, s),
        r == old(v)@[i as int],
{
    let r = v.remove(i);
    v.insert(i, s);
    assert(v@ =~= old(v)@.update(i as int, s));
    r
}

/// `n` free entries.
pub(crate) fn free_states<B>(n: usize) -> (r: Vec<BufferState<B>>)
    ensures
        r@.len() == n,
        all_free(r@),
{
    let mut v: Vec<BufferState<B>> = Vec::new();
    let mut i: usize = 0;
    while i < n
        invariant
            i <= n,
            v@.len() == i,
            all_free(v@),
        decreases n - i,
    {
        v.push(BufferState::Free);
        i = i + 1;
    }
    v
}

} // verus!
