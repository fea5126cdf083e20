//! Trusted wrappers around the standard multi-producer, single-consumer
//! queues that connect the threads of the client.  Each endpoint carries a
//! ghost history of the values it has enqueued or dequeued, so that
//! contracts elsewhere can speak about what was sent and in what order.

use vstd::prelude::*;

verus! {

#[verifier::external_type_specification]
#[verifier::external_body]
#[verifier::reject_recursive_types(T)]
pub struct ExSender<T>(std::sync::mpsc::Sender<T>);

#[verifier::external_type_specification]
#[verifier::external_body]
#[verifier::reject_recursive_types(T)]
pub struct ExReceiver<T>(std::sync::mpsc::Receiver<T>);

/// The other half of a queue is gone and the operation cannot complete.
#[derive(Debug, PartialEq, Eq, Structural)]
pub struct ChanClosed;

/// What a non-blocking receive can observe.
pub enum TryRecvOutcome<T> {
    Got(T),
    Empty,
    Closed,
}

/// The sending half of a queue.  `sent` is the ghost history of every
/// value this handle successfully enqueued, oldest first.
#[verifier::reject_recursive_types(T)]
pub struct TxChan<T> {
    pub inner: std::sync::mpsc::Sender<T>,
    pub sent: Ghost<Seq<T>>,
}

/// The receiving half of a queue.  `got` is the ghost history of every
/// value this handle dequeued, oldest first.
#[verifier::reject_recursive_types(T)]
pub struct RxChan<T> {
    pub inner: std::sync::mpsc::Receiver<T>,
    pub got: Ghost<Seq<T>>,
}

/// Relies on std::sync::mpsc::channel: a fresh first-in-first-out queue
/// with nothing in it yet.
#[verifier::external_body]
pub fn channel<T>() -> (r: (TxChan<T>, RxChan<T>))
    ensures
        r.0.sent@ == Seq::<T>::empty(),
        r.1.got@ == Seq::<T>::empty(),
{
    let (tx, rx) = std::sync::mpsc::channel();
    (TxChan { inner: tx, sent: Ghost(Seq::empty()) }, RxChan { inner: rx, got: Ghost(Seq::empty()) })
}

impl<T> TxChan<T> {
    /// Relies on std::sync::mpsc::Sender::send: the value joins the back
    /// of the queue, unless the receiving half is gone, in which case
    /// nothing is delivered.
    #[verifier::external_body]
    pub fn send(&mut self, t: T) -> (r: Result<(), ChanClosed>)
        ensures
            r is Ok ==> final(self).sent@ == old(self).sent@.push(t),
            r is Err ==> final(self).sent@ == old(self).sent@,
    {
        match self.inner.send(t) {
            Ok(()) => Ok(()),
            Err(_) => Err(ChanClosed),
        }
    }

    /// Relies on std::sync::mpsc::Sender::clone: the new handle feeds the
    /// same queue; its own send history starts out empty.
    #[verifier::external_body]
    pub fn duplicate(&self) -> (r: TxChan<T>)
        ensures
            r.sent@ == Seq::<T>::empty(),
    {
        TxChan { inner: self.inner.clone(), sent: Ghost(Seq::empty()) }
    }
}

impl<T> RxChan<T> {
    /// Relies on std::sync::mpsc::Receiver::recv: blocks until a value
    /// arrives, or reports the queue closed once every sender is gone and
    /// the queue has drained.
    #[verifier::external_body]
    pub fn recv(&mut self) -> (r: Result<T, ChanClosed>)
        ensures
            r matches Ok(t) ==> final(self).got@ == old(self).got@.push(t),
            r is Err ==> final(self).got@ == old(self).got@,
    {
        match self.inner.recv() {
            Ok(t) => Ok(t),
            Err(_) => Err(ChanClosed),
        }
    }

    /// Relies on std::sync::mpsc::Receiver::try_recv: never blocks, and
    /// tells an empty queue apart from a closed one.
    #[verifier::external_body]
    pub fn try_recv(&mut self) -> (r: TryRecvOutcome<T>)
        ensures
            r matches TryRecvOutcome::Got(t) ==> final(self).got@ == old(self).got@.push(t),
            !(r is Got) ==> final(self).got@ == old(self).got@,
    {
        match self.inner.try_recv() {
            Ok(t) => TryRecvOutcome::Got(t),
            Err(std::sync::mpsc::TryRecvError::Empty) => TryRecvOutcome::Empty,
            Err(std::sync::mpsc::TryRecvError::Disconnected) => TryRecvOutcome::Closed,
        }
    }
}

} // verus!
