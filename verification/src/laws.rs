//! The adapter's cross-call guarantees, stated over the model that the
//! executable functions' contracts use: delivery order, wakeup-handle
//! replacement, and end-of-stream finality.

use crate::error::Error;
use crate::message::Message;
use crate::stream::{poll_next_spec, push_entry_spec, PollNext, StreamModel};
use vstd::prelude::*;

verus! {

/// The adapter's state after the bridge has appended the given entries, in
/// order.
pub open spec fn after_pushes<W>(
    s: StreamModel<W>,
    entries: Seq<Result<Message, Error>>,
) -> StreamModel<W>
    decreases entries.len(),
{
    if entries.len() == 0 {
        s
    } else {
        after_pushes(push_entry_spec(s, entries[0]).0, entries.drop_first())
    }
}

/// The adapter's state after k successive polls, each offering the same
/// transport state and wakeup handle.
pub open spec fn after_polls<W>(s: StreamModel<W>, raw_state: u16, w: W, k: nat) -> StreamModel<W>
    decreases k,
{
    if k == 0 {
        s
    } else {
        after_polls(poll_next_spec(s, raw_state, w).0, raw_state, w, (k - 1) as nat)
    }
}

/// A run of bridge appends extends the queue by exactly those entries, in
/// order, and leaves the end-of-stream flag alone.
pub proof fn lemma_after_pushes<W>(s: StreamModel<W>, entries: Seq<Result<Message, Error>>)
    ensures
        after_pushes(s, entries).queue =~= s.queue + entries,
        after_pushes(s, entries).finished == s.finished,
    decreases entries.len(),
{
    if entries.len() == 0 {
        assert(s.queue + entries =~= s.queue);
    } else {
        lemma_after_pushes(push_entry_spec(s, entries[0]).0, entries.drop_first());
        assert(s.queue.push(entries[0]) + entries.drop_first() =~= s.queue + entries);
    }
}

/// While the queue holds at least k entries and the stream has not ended,
/// k polls remove exactly the first k entries and nothing else.
pub proof fn lemma_polls_drain<W>(s: StreamModel<W>, raw_state: u16, w: W, k: int)
    requires
        !s.finished,
        0 <= k <= s.queue.len(),
    ensures
        !after_polls(s, raw_state, w, k as nat).finished,
        after_polls(s, raw_state, w, k as nat).queue =~= s.queue.skip(k),
    decreases k,
{
    if k == 0 {
        assert(s.queue.skip(0) =~= s.queue);
    } else {
        let s1 = poll_next_spec(s, raw_state, w).0;
        lemma_polls_drain(s1, raw_state, w, k - 1);
        assert(s.queue.drop_first().skip(k - 1) =~= s.queue.skip(k));
    }
}

/// Ordering: if the bridge appends entries e1..eN to a fresh adapter in that
/// order, then the k-th poll (counting from zero) yields exactly the k-th
/// entry — delivery order is callback order.
pub proof fn lemma_fifo_ordering<W>(
    s: StreamModel<W>,
    entries: Seq<Result<Message, Error>>,
    raw_state: u16,
    w: W,
    k: int,
)
    requires
        !s.finished,
        s.queue.len() == 0,
        0 <= k < entries.len(),
    ensures
        poll_next_spec(after_polls(after_pushes(s, entries), raw_state, w, k as nat), raw_state, w).1
            == PollNext::Ready(entries[k]),
{
    let q = after_pushes(s, entries);
    lemma_after_pushes(s, entries);
    assert(q.queue =~= entries);
    lemma_polls_drain(q, raw_state, w, k);
    let r = after_polls(q, raw_state, w, k as nat);
    assert(r.queue[0] == entries[k]);
}

/// Single active waker: a second pending poll supersedes the first — only the
/// latest registered handle stays stored, and the entry that arrives next
/// hands back that handle alone, so a superseded handle is never invoked.
pub proof fn lemma_waker_superseded<W>(
    s: StreamModel<W>,
    raw1: u16,
    raw2: u16,
    w1: W,
    w2: W,
    e: Result<Message, Error>,
)
    requires
        poll_next_spec(s, raw1, w1).1 is Pending,
        poll_next_spec(poll_next_spec(s, raw1, w1).0, raw2, w2).1 is Pending,
    ensures
        poll_next_spec(s, raw1, w1).0.waker == Some(w1),
        poll_next_spec(poll_next_spec(s, raw1, w1).0, raw2, w2).0.waker == Some(w2),
        push_entry_spec(poll_next_spec(poll_next_spec(s, raw1, w1).0, raw2, w2).0, e).1 == Some(
            w2,
        ),
{
}

/// End-of-stream finality: once a poll reports `Finished`, every subsequent
/// poll reports `Finished` too, whatever transport state it observes and
/// whatever handle it offers.
pub proof fn lemma_end_of_stream_final<W>(s: StreamModel<W>, raw1: u16, w1: W, raw2: u16, w2: W)
    requires
        poll_next_spec(s, raw1, w1).1 is Finished,
    ensures
        poll_next_spec(s, raw1, w1).0.finished,
        poll_next_spec(poll_next_spec(s, raw1, w1).0, raw2, w2).1 is Finished,
{
}

/// A bridge append between polls cannot resurrect an ended stream: the
/// end-of-stream flag survives every append.
pub proof fn lemma_push_preserves_finished<W>(s: StreamModel<W>, e: Result<Message, Error>)
    ensures
        push_entry_spec(s, e).0.finished == s.finished,
{
}

} // verus!
