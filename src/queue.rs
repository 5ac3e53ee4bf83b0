use vstd::prelude::*;
use crate::message::Message;
use std::collections::VecDeque;

verus! {

/// An unbounded first-in first-out queue of messages. Producers push at the
/// back; the consumer takes everything present at once.
pub struct MessageQueue {
    items: VecDeque<Message>,
}

impl View for MessageQueue {
    type V = Seq<Message>;

    closed spec fn view(&self) -> Seq<Message> {
        self.items@
    }
}

/// The queue contents after pushing each of `ms`, in order, onto `q`.
pub open spec fn pushes(q: Seq<Message>, ms: Seq<Message>) -> Seq<Message>
    decreases ms.len(),
{
    if ms.len() == 0 {
        q
    } else {
        pushes(q.push(ms[0]), ms.drop_first())
    }
}

impl MessageQueue {
    pub fn new() -> (r: MessageQueue)
        ensures
            r@ == Seq::<Message>::empty(),
    {
        MessageQueue { items: VecDeque::new() }
    }

    pub fn len(&self) -> (r: usize)
        ensures
            r == self@.len(),
    {
        self.items.len()
    }

    pub fn is_empty(&self) -> (r: bool)
        ensures
            r == (self@.len() == 0),
    {
        self.items.len() == 0
    }

    /// Appends `m` at the back; never blocks, never fails.
    pub fn push_back(&mut self, m: Message)
        ensures
            final(self)@ == old(self)@.push(m),
    {
        self.items.push_back(m);
    }

    /// Appends each of `ms`, in order.
    pub fn push_all(&mut self, ms: Vec<Message>)
        ensures
            final(self)@ == old(self)@ + ms@,
    {
        let ghost all = ms@;
        let n: usize = ms.len();
        let mut rest = ms;
        let ghost start = self@;
        let mut i: usize = 0;
        while rest.len() > 0
            invariant
                all.len() == n,
                i + rest@.len() == all.len(),
                rest@ =~= all.subrange(i as int, all.len() as int),
                self@ == start + all.subrange(0, i as int),
            decreases rest@.len(),
        {
            let m = rest.remove(0);
            self.items.push_back(m);
            i = i + 1;
            assert(self@ =~= start + all.subrange(0, i as int));
            assert(rest@ =~= all.subrange(i as int, all.len() as int));
        }
        assert(all.subrange(0, i as int) =~= all);
    }

    /// Takes every message present, oldest first, and leaves the queue empty.
    pub fn drain_all(&mut self) -> (r: Vec<Message>)
        ensures
            r@ == old(self)@,
            final(self)@ == Seq::<Message>::empty(),
    {
        let ghost start = self@;
        let mut out: Vec<Message> = Vec::new();
        while self.items.len() > 0
            invariant
                out@ + self@ == start,
            decreases self@.len(),
        {
            let m = self.items.pop_front().unwrap();
            out.push(m);
            assert(out@ + self@ =~= start);
        }
        assert(out@ =~= start);
        out
    }
}

/// Pushing the messages one at a time appends them in order.
pub proof fn lemma_pushes_append(q: Seq<Message>, ms: Seq<Message>)
    ensures
        pushes(q, ms) == q + ms,
    decreases ms.len(),
{
    if ms.len() > 0 {
        lemma_pushes_append(q.push(ms[0]), ms.drop_first());
        assert(q.push(ms[0]) + ms.drop_first() =~= q + ms);
    }
}

/// Ordering and single delivery: messages pushed one at a time by a single
/// producer onto an empty queue come out of one drain in push order, the drain
/// leaves the queue empty, and the next drain returns only what was pushed in
/// between; so across two drains each message appears exactly once.
pub proof fn lemma_fifo_delivery(first: Seq<Message>, second: Seq<Message>)
    ensures
        pushes(Seq::empty(), first) == first,
        pushes(Seq::empty(), second) == second,
        pushes(Seq::empty(), first) + pushes(Seq::empty(), second) == first + second,
{
    lemma_pushes_append(Seq::empty(), first);
    lemma_pushes_append(Seq::empty(), second);
    assert(Seq::<Message>::empty() + first =~= first);
    assert(Seq::<Message>::empty() + second =~= second);
}

} // verus!
