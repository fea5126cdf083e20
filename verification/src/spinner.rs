//! A small receive-and-handle loop: pulls values from a receiver and
//! feeds them to a handler until either side stops.  The worker threads
//! of the client are instances of this shape.

use crate::chan::ChanClosed;
use vstd::prelude::*;

verus! {

/// What the handler tells the loop after each value.
pub enum Command {
    Continue,
    Quit,
}

/// A source of values: a queue, a socket, or anything else the host
/// wires in.
pub trait Receiver<T> {
    /// The next value, or the news that no more will come.
    fn recv(&mut self) -> Result<T, ChanClosed>;
}

/// What to do with each received value.
pub trait Handler<T> {
    /// Handles one value and says whether the loop goes on.
    fn handle(&mut self, t: T) -> Result<Command, ChanClosed>;
}

/// A receiver and a handler, spun together.
pub struct Spinner<T, R, H> where R: Receiver<T>, H: Handler<T> {
    pub recver: R,
    pub handler: H,
    pub phantom: core::marker::PhantomData<T>,
}

impl<T, R, H> Spinner<T, R, H> where R: Receiver<T>, H: Handler<T> {
    /// Pairs a receiver with a handler.
    pub fn new(recver: R, handler: H) -> (r: Spinner<T, R, H>)
        ensures
            r.recver == recver,
            r.handler == handler,
    {
        Spinner { recver, handler, phantom: core::marker::PhantomData }
    }

    /// Receives and handles until the handler asks to quit, which is
    /// `Ok`, or either side reports its queue closed, which is the error.
    /// The loop carries a finite but practically inexhaustible step
    /// budget, so that it provably makes progress; an exhausted budget
    /// reports the queue closed.
    pub fn spin(&mut self) -> Result<(), ChanClosed> {
        let mut budget: u64 = u64::MAX;
        loop
            decreases budget,
        {
            if budget == 0 {
                return Err(ChanClosed);
            }
            budget = budget - 1;
            match self.recver.recv() {
                Ok(t) => {
                    match self.handler.handle(t) {
                        Ok(Command::Quit) => {
                            return Ok(());
                        },
                        Ok(Command::Continue) => {
                        },
                        Err(e) => {
                            return Err(e);
                        },
                    }
                },
                Err(e) => {
                    return Err(e);
                },
            }
        }
    }
}

} // verus!
