use std::sync::Arc;
use vstd::prelude::*;
use vstd::rwlock::RwLock;
use vstd::rwlock::RwLockPredicate;

verus! {

/// Why a receive gave no message.
#[derive(Debug, Clone, Copy, PartialEq, Eq, Structural)]
pub enum ChannelError {
    /// Nothing had been sent (or it was already received).
    NoMessage,
}

/// The state of a one-shot channel: at most one message, waiting to be
/// received. The channel is ready exactly when a message is waiting.
pub struct OneShot<T> {
    message: Option<T>,
}

impl<T> View for OneShot<T> {
    type V = Option<T>;

    /// The waiting message, if any.
    closed spec fn view(&self) -> Option<T> {
        self.message
    }
}

impl<T> OneShot<T> {
    /// A channel with nothing sent.
    pub fn new() -> (c: Self)
        ensures
            c@ == None::<T>,
    {
        OneShot { message: None }
    }

    /// Stores `message` for the receiver; the channel is ready afterwards.
    pub fn send(&mut self, message: T)
        ensures
            final(self)@ == send_state(old(self)@, message),
    {
        self.message = Some(message);
    }

    /// Whether a message is waiting.
    pub fn is_ready(&self) -> (b: bool)
        ensures
            b == self@ is Some,
    {
        self.message.is_some()
    }

    /// Takes the waiting message; with none waiting, returns `NoMessage` and
    /// changes nothing. The channel is not ready afterwards.
    pub fn receive(&mut self) -> (r: Result<T, ChannelError>)
        ensures
            r == receive_result(old(self)@),
            final(self)@ == None::<T>,
    {
        match self.message.take() {
            Some(m) => Ok(m),
            None => Err(ChannelError::NoMessage),
        }
    }
}

/// A receive gives back exactly what the send stored, and leaves the channel
/// not ready; a receive with nothing sent reports `NoMessage`.
pub proof fn lemma_receive_returns_sent<T>(before: Option<T>, m: T)
    ensures
        receive_result(send_state(before, m)) == Ok::<T, ChannelError>(m),
        receive_result(None::<T>) == Err::<T, ChannelError>(ChannelError::NoMessage),
        send_state(before, m) is Some,
{
}

/// The state a send of `m` leaves behind: `m` waits, whatever was there.
pub open spec fn send_state<T>(before: Option<T>, m: T) -> Option<T> {
    Some(m)
}

/// What a receive returns from the state `s`.
pub open spec fn receive_result<T>(s: Option<T>) -> Result<T, ChannelError> {
    match s {
        Some(m) => Ok(m),
        None => Err(ChannelError::NoMessage),
    }
}

/// The invariant kept by the lock around a one-shot channel: any state.
pub struct AnyState;

impl<T> RwLockPredicate<OneShot<T>> for AnyState {
    open spec fn inv(self, v: OneShot<T>) -> bool {
        true
    }
}

/// The lock that a sender and a receiver share.
pub type SharedSlot<T> = RwLock<OneShot<T>, AnyState>;

/// Another handle on the same shared value.
///
/// Trusted: `Arc::clone` returns a pointer to the same allocation, so the
/// value behind the result is the value behind `a`.
#[verifier::external_body]
fn share<T>(a: &Arc<T>) -> (r: Arc<T>)
    ensures
        r == *a,
{
    Arc::clone(a)
}

/// The sending half of a one-shot channel; sending consumes it, so at most
/// one message is ever sent.
pub struct Sender<T> {
    channel: Arc<SharedSlot<T>>,
}

/// The receiving half of a one-shot channel; receiving consumes it.
pub struct Receiver<T> {
    channel: Arc<SharedSlot<T>>,
}

impl<T> Sender<T> {
    /// The shared state this sender writes to.
    pub closed spec fn slot(&self) -> SharedSlot<T> {
        *self.channel
    }

    /// Stores `message` for the receiver.
    pub fn send(self, message: T) {
        let (mut state, handle) = self.channel.acquire_write();
        state.send(message);
        handle.release_write(state);
    }
}

impl<T> Receiver<T> {
    /// The shared state this receiver reads.
    pub closed spec fn slot(&self) -> SharedSlot<T> {
        *self.channel
    }

    /// Whether the message has been sent. The answer depends on how far the
    /// sending thread has got, so no clause states it.
    pub fn is_ready(&self) -> bool {
        let handle = self.channel.acquire_read();
        let ready = handle.borrow().is_ready();
        handle.release_read();
        ready
    }

    /// Takes the message, or reports `NoMessage` when it has not been sent
    /// yet. Which of the two comes depends on the sending thread, so no
    /// clause states it; `OneShot::receive` states it for a given state.
    pub fn receive(self) -> Result<T, ChannelError> {
        let (mut state, handle) = self.channel.acquire_write();
        let r = state.receive();
        handle.release_write(state);
        r
    }
}

/// A new one-shot channel: a sender and a receiver that share one state,
/// with nothing sent.
pub fn channel<T>() -> (pair: (Sender<T>, Receiver<T>))
    ensures
        pair.0.slot() == pair.1.slot(),
{
    let a = Arc::new(RwLock::new(OneShot::new(), Ghost(AnyState)));
    let b = share(&a);
    (Sender { channel: b }, Receiver { channel: a })
}

} // verus!
