use std::collections::VecDeque;
use vstd::prelude::*;

verus! {

/// The message a receive takes from a queue whose contents are `q`.
pub open spec fn front<T>(q: Seq<T>) -> Option<T> {
    if q.len() == 0 {
        None
    } else {
        Some(q[0])
    }
}

/// What is left of a queue whose contents are `q` after a receive.
pub open spec fn rest<T>(q: Seq<T>) -> Seq<T> {
    if q.len() == 0 {
        q
    } else {
        q.drop_first()
    }
}

/// The queue of a message channel: messages are received in the order in
/// which they were sent.
///
/// This is the state that a channel shared between threads keeps under its
/// lock; `receive` returns `None` where such a channel makes the receiving
/// thread wait for the next `send`.
pub struct Channel<T> {
    queue: VecDeque<T>,
}

impl<T> View for Channel<T> {
    type V = Seq<T>;

    /// The messages sent and not yet received, oldest first.
    closed spec fn view(&self) -> Seq<T> {
        self.queue@
    }
}

impl<T> Channel<T> {
    /// An empty channel.
    pub fn new() -> (c: Self)
        ensures
            c@ == Seq::<T>::empty(),
    {
        Channel { queue: VecDeque::new() }
    }

    /// Appends `message` behind every message still waiting.
    pub fn send(&mut self, message: T)
        ensures
            final(self)@ == old(self)@.push(message),
    {
        self.queue.push_back(message);
    }

    /// Takes the oldest waiting message, or returns `None` (and leaves the
    /// channel as it is) when no message is waiting.
    pub fn receive(&mut self) -> (r: Option<T>)
        ensures
            r == front(old(self)@),
            final(self)@ == rest(old(self)@),
    {
        self.queue.pop_front()
    }

    /// The number of messages waiting.
    pub fn len(&self) -> (n: usize)
        ensures
            n == self@.len(),
    {
        self.queue.len()
    }

    /// Whether no message is waiting.
    pub fn is_empty(&self) -> (b: bool)
        ensures
            b == (self@.len() == 0),
    {
        self.queue.len() == 0
    }
}

/// A receive gives back what the oldest send put in: on an empty queue a
/// send followed by a receive returns the message sent and leaves the queue
/// empty; on a non-empty queue the receive returns the old front, and it
/// makes no difference whether the send came before or after it.
pub proof fn lemma_receive_after_send<T>(q: Seq<T>, m: T)
    ensures
        q.len() == 0 ==> front(q.push(m)) == Some(m) && rest(q.push(m)) == q,
        q.len() > 0 ==> front(q.push(m)) == front(q) && rest(q.push(m)) == rest(q).push(m),
{
    if q.len() > 0 {
        assert(q.push(m).drop_first() =~= q.drop_first().push(m));
    } else {
        assert(q.push(m).drop_first() =~= q);
    }
}

/// First in, first out: after the messages `ms` are sent, in order, into a
/// channel holding `q`, receiving `q.len() + ms.len()` times yields the
/// contents of `q` followed by `ms`, in order.
pub proof fn lemma_fifo<T>(q: Seq<T>, ms: Seq<T>, i: nat)
    requires
        i < q.len() + ms.len(),
    ensures
        front(drain(q + ms, i)) == Some((q + ms)[i as int]),
        i < q.len() ==> front(drain(q + ms, i)) == Some(q[i as int]),
        q.len() <= i ==> front(drain(q + ms, i)) == Some(ms[i - q.len()]),
{
    lemma_drain_skips(q + ms, i as int);
}

/// The contents of a queue after `k` receives.
pub open spec fn drain<T>(q: Seq<T>, k: nat) -> Seq<T>
    decreases k,
{
    if k == 0 {
        q
    } else {
        rest(drain(q, (k - 1) as nat))
    }
}

proof fn lemma_drain_skips<T>(q: Seq<T>, k: int)
    requires
        0 <= k <= q.len(),
    ensures
        drain(q, k as nat) =~= q.skip(k),
    decreases k,
{
    if k > 0 {
        lemma_drain_skips(q, k - 1);
        assert(q.skip(k - 1).drop_first() =~= q.skip(k));
    }
}

/// One operation on a channel in a history of operations, in the order in
/// which they took the channel's lock.
pub enum Op<T> {
    /// A call of `send` with this message.
    Send(T),
    /// A call of `receive`.
    Receive,
}

/// The messages passed to `send` in a history, in order.
pub open spec fn sent<T>(ops: Seq<Op<T>>) -> Seq<T>
    decreases ops.len(),
{
    if ops.len() == 0 {
        Seq::empty()
    } else {
        let before = sent(ops.drop_last());
        match ops.last() {
            Op::Send(m) => before.push(m),
            Op::Receive => before,
        }
    }
}

/// Runs a history on a channel holding `q`, each operation as `send` and
/// `receive` specify it: the messages the receives returned, in order, and
/// the contents of the channel afterwards.
pub open spec fn run<T>(q: Seq<T>, ops: Seq<Op<T>>) -> (Seq<T>, Seq<T>)
    decreases ops.len(),
{
    if ops.len() == 0 {
        (Seq::empty(), q)
    } else {
        let (received, queue) = run(q, ops.drop_last());
        match ops.last() {
            Op::Send(m) => (received, queue.push(m)),
            Op::Receive => match front(queue) {
                Some(m) => (received.push(m), rest(queue)),
                None => (received, queue),
            },
        }
    }
}

/// Nothing is invented, duplicated or lost: after any history of sends and
/// receives on a channel holding `q`, the messages received followed by the
/// messages still waiting are exactly `q` followed by the messages sent.
pub proof fn lemma_history_conserves<T>(q: Seq<T>, ops: Seq<Op<T>>)
    ensures
        run(q, ops).0 + run(q, ops).1 == q + sent(ops),
    decreases ops.len(),
{
    if ops.len() > 0 {
        lemma_history_conserves(q, ops.drop_last());
        let (received, queue) = run(q, ops.drop_last());
        match ops.last() {
            Op::Send(m) => {
                assert(received + queue.push(m) =~= (received + queue).push(m));
                assert((q + sent(ops.drop_last())).push(m) =~= q + sent(ops.drop_last()).push(m));
            },
            Op::Receive => {
                if queue.len() > 0 {
                    assert(received.push(queue[0]) + queue.drop_first() =~= received + queue);
                }
            },
        }
    }
}

/// First in, first out over any interleaving: on a channel that starts
/// empty, the messages returned by the receives of a history are a prefix
/// of the messages passed to its sends, in the order sent.
pub proof fn lemma_history_fifo<T>(ops: Seq<Op<T>>)
    ensures
        run(Seq::<T>::empty(), ops).0.len() <= sent(ops).len(),
        forall|i: int|
            0 <= i < run(Seq::<T>::empty(), ops).0.len() ==> #[trigger] run(
                Seq::<T>::empty(),
                ops,
            ).0[i] == sent(ops)[i],
        run(Seq::<T>::empty(), ops).1 == sent(ops).skip(run(Seq::<T>::empty(), ops).0.len() as int),
{
    let e = Seq::<T>::empty();
    lemma_history_conserves(e, ops);
    let (received, queue) = run(e, ops);
    assert(e + sent(ops) =~= sent(ops));
    assert forall|i: int| 0 <= i < received.len() implies received[i] == sent(ops)[i] by {
        assert((received + queue)[i] == received[i]);
    }
    assert(sent(ops).skip(received.len() as int) =~= queue) by {
        assert forall|i: int| 0 <= i < queue.len() implies queue[i] == sent(ops)[received.len() + i] by {
            assert((received + queue)[received.len() + i] == queue[i]);
        }
    }
}

} // verus!
