//! The decision core of the IO loop: the single thread that owns the
//! socket runs these steps.  Commands from the rest of the client turn
//! into write actions; inbound messages are routed to the waiting call or
//! handed to the dispatcher.  The host performs the actual reads and
//! writes.

use crate::chan::TxChan;
use vstd::pervasive::VecAdditionalExecFns;
use crate::client::{EventLoopThreadCommand, FunctionThreadCommand};
use crate::message::{Message, Response, ResponseKind};
use vstd::prelude::*;

verus! {

/// What the host must do with the socket after one step.
pub enum IoAction {
    Nothing,
    Write(Message),
    Quit,
}

/// The state owned by the IO loop: the map from context identifier to
/// the response queue of the outbound call waiting on it, the way to the
/// dispatcher, and whether the loop has been told to stop.
pub struct Handler {
    pub running_function_calls: Vec<(String, TxChan<Response>)>,
    pub function_thread_sender: TxChan<FunctionThreadCommand>,
    pub done: bool,
}

/// Whether `c` names one of the waiting outbound calls.
pub open spec fn has_call(s: Seq<(String, TxChan<Response>)>, c: Seq<char>) -> bool {
    exists|i: int| 0 <= i < s.len() && s[i].0@ == c
}

/// The first entry whose key has the given text, if any; everything
/// before it has another key.
pub(crate) fn find_index<T>(v: &Vec<(String, T)>, key: &String) -> (r: Option<usize>)
    ensures
        r matches Some(i) ==> i < v@.len() && v@[i as int].0@ == key@ && (forall|j: int|
            0 <= j < i ==> v@[j].0@ != key@),
        r is None ==> forall|j: int| 0 <= j < v@.len() ==> v@[j].0@ != key@,
{
    let n = v.len();
    let mut i: usize = 0;
    while i < n
        invariant
            n == v@.len(),
            i <= n,
            forall|j: int| 0 <= j < i ==> v@[j].0@ != key@,
        decreases n - i,
    {
        if v[i].0 == *key {
            return Some(i);
        }
        i = i + 1;
    }
    None
}

impl Handler {
    /// No two waiting calls share a context identifier.
    pub open spec fn wf(&self) -> bool {
        forall|i: int, j: int|
            0 <= i < j < self.running_function_calls@.len()
                ==> self.running_function_calls@[i].0@ != self.running_function_calls@[j].0@
    }

    /// A fresh IO-loop state with no waiting calls.
    pub fn new(function_thread_sender: TxChan<FunctionThreadCommand>) -> (r: Handler)
        ensures
            r.running_function_calls@ == Seq::<(String, TxChan<Response>)>::empty(),
            r.function_thread_sender == function_thread_sender,
            !r.done,
            r.wf(),
    {
        Handler { running_function_calls: Vec::new(), function_thread_sender, done: false }
    }

    /// One command from the client side.  `Quit` stops the loop; `Send`
    /// asks for a write; a new call is entered into the waiting map
    /// before its write action is handed out, so a racing reply cannot
    /// find the map empty.  Once stopped, the step never again asks for a
    /// write: after the quit that a dropped client sends, no further
    /// socket writes occur.
    pub fn handle_command(&mut self, command: EventLoopThreadCommand) -> (a: IoAction)
        requires
            old(self).wf(),
        ensures
            final(self).wf(),
            final(self).function_thread_sender == old(self).function_thread_sender,
            final(self).done == (old(self).done || command is Quit),
            old(self).done ==> a is Nothing && *final(self) == *old(self),
            !old(self).done ==> (command is Quit ==> a is Quit && final(self).running_function_calls == old(self).running_function_calls),
            !old(self).done ==> (command matches EventLoopThreadCommand::Send(m) ==> a
                == IoAction::Write(m) && final(self).running_function_calls == old(self).running_function_calls),
            !old(self).done ==> (command matches EventLoopThreadCommand::Call(ctx, tx, m) ==> ({
                &&& a == IoAction::Write(m)
                &&& has_call(final(self).running_function_calls@, ctx@)
                &&& (forall|k: int|
                    0 <= k < final(self).running_function_calls@.len() && final(self).running_function_calls@[k].0@ == ctx@ ==> final(self).running_function_calls@[k].1 == tx)
                &&& (forall|c: Seq<char>|
                    has_call(final(self).running_function_calls@, c) <==> (has_call(
                        old(self).running_function_calls@,
                        c,
                    ) || c == ctx@))
            })),
    {
        if self.done {
            return IoAction::Nothing;
        }
        match command {
            EventLoopThreadCommand::Quit => {
                self.done = true;
                IoAction::Quit
            },
            EventLoopThreadCommand::Send(message) => IoAction::Write(message),
            EventLoopThreadCommand::Call(context, tx, message) => {
                let ghost pre = self.running_function_calls@;
                let ghost ctxv = context@;
                match find_index(&self.running_function_calls, &context) {
                    Some(i) => {
                        proof {
                            assert forall|k: int|
                                0 <= k < pre.len() && pre[k].0@ == ctxv implies k == i as int by {
                                if k != i as int {
                                    assert(pre[i as int].0@ == ctxv);
                                }
                            }
                        }
                        self.running_function_calls.set(i, (context, tx));
                        proof {
                            let fin = self.running_function_calls@;
                            assert(forall|k: int|
                                0 <= k < fin.len() ==> fin[k].0@ == pre[k].0@);
                            assert forall|c: Seq<char>| has_call(fin, c) implies has_call(
                                pre,
                                c,
                            ) by {
                                let k = choose|k: int| 0 <= k < fin.len() && fin[k].0@ == c;
                                assert(pre[k].0@ == c);
                            }
                            assert forall|c: Seq<char>| has_call(pre, c) implies has_call(
                                fin,
                                c,
                            ) by {
                                let k = choose|k: int| 0 <= k < pre.len() && pre[k].0@ == c;
                                assert(fin[k].0@ == c);
                            }
                        }
                        IoAction::Write(message)
                    },
                    None => {
                        self.running_function_calls.push((context, tx));
                        proof {
                            let fin = self.running_function_calls@;
                            assert(fin[fin.len() - 1].0@ == ctxv);
                            assert forall|c: Seq<char>| has_call(fin, c) implies (has_call(
                                pre,
                                c,
                            ) || c == ctxv) by {
                                let k = choose|k: int| 0 <= k < fin.len() && fin[k].0@ == c;
                                if k < fin.len() - 1 {
                                    assert(pre[k].0@ == c);
                                }
                            }
                            assert forall|c: Seq<char>| has_call(pre, c) implies has_call(
                                fin,
                                c,
                            ) by {
                                let k = choose|k: int| 0 <= k < pre.len() && pre[k].0@ == c;
                                assert(fin[k].0@ == c);
                            }
                        }
                        IoAction::Write(message)
                    },
                }
            },
        }
    }
    /// One message read from the socket.  A response is forwarded, in
    /// arrival order, to the queue of the outbound call whose context it
    /// names; on a terminal response the mapping is removed, so a later
    /// duplicate finds no call and is dropped.  A response for an unknown
    /// context is dropped silently, as is one whose call was already
    /// discarded by the user.  Calls and cancellations from the peer are
    /// handed to the dispatcher.
    pub fn route_inbound(&mut self, message: Message)
        requires
            old(self).wf(),
        ensures
            final(self).wf(),
            final(self).done == old(self).done,
            message is RpcResponse ==> final(self).function_thread_sender == old(self).function_thread_sender,
            message matches Message::RpcResponse(resp) ==> (!has_call(
                old(self).running_function_calls@,
                resp.context@,
            ) ==> final(self).running_function_calls == old(self).running_function_calls),
            message matches Message::RpcResponse(resp) ==> (forall|k: int|
                0 <= k < old(self).running_function_calls@.len() && old(self).running_function_calls@[k].0@ == resp.context@ ==> ((resp.kind is Last ==> final(self).running_function_calls@ == old(self).running_function_calls@.remove(k)) && (
                resp.kind is Partial ==> final(self).running_function_calls@.len() == old(self).running_function_calls@.len() && final(self).running_function_calls@[k].0 == old(self).running_function_calls@[k].0 && (final(self).running_function_calls@[k].1.sent@
                    == old(self).running_function_calls@[k].1.sent@.push(resp) || final(self).running_function_calls@[k].1.sent@ == old(self).running_function_calls@[k].1.sent@) && (forall|j: int|
                    0 <= j < final(self).running_function_calls@.len() && j != k ==> final(self).running_function_calls@[j] == old(self).running_function_calls@[j])))),
            message matches Message::RpcCall(call) ==> final(self).running_function_calls == old(self).running_function_calls && (final(self).function_thread_sender.sent@ == old(self).function_thread_sender.sent@.push(FunctionThreadCommand::Call(call)) || final(self).function_thread_sender.sent@ == old(self).function_thread_sender.sent@),
            message matches Message::RpcCancel(cancel) ==> final(self).running_function_calls
                == old(self).running_function_calls && (final(self).function_thread_sender.sent@
                == old(self).function_thread_sender.sent@.push(
                FunctionThreadCommand::Cancel(cancel),
            ) || final(self).function_thread_sender.sent@ == old(self).function_thread_sender.sent@),
    {
        match message {
            Message::RpcResponse(resp) => {
                let ghost pre = self.running_function_calls@;
                let ghost respv = resp;
                match find_index(&self.running_function_calls, &resp.context) {
                    Some(i) => {
                        proof {
                            assert forall|k: int|
                                0 <= k < pre.len() && pre[k].0@ == respv.context@ implies k
                                == i as int by {
                                if k != i as int {
                                    assert(pre[i as int].0@ == respv.context@);
                                }
                            }
                        }
                        let is_last = matches!(resp.kind, ResponseKind::Last(_));
                        let mut entry = self.running_function_calls.remove(i);
                        let _ = entry.1.send(resp);
                        if !is_last {
                            self.running_function_calls.insert(i, entry);
                            proof {
                                let fin = self.running_function_calls@;
                                assert(fin =~= pre.update(i as int, entry));
                            }
                        }
                    },
                    None => {
                    },
                }
            },
            Message::RpcCall(rpc_call) => {
                let _ = self.function_thread_sender.send(FunctionThreadCommand::Call(rpc_call));
            },
            Message::RpcCancel(rpc_cancel) => {
                let _ = self.function_thread_sender.send(
                    FunctionThreadCommand::Cancel(rpc_cancel),
                );
            },
        }
    }
}

} // verus!
