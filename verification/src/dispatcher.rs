//! The decision core of the dispatcher: the thread that owns the registry
//! of locally-served procedure names and the cancel queues of the inbound
//! calls that are running.  The host drives it with the commands the IO
//! loop forwards, and itself invokes the handler objects, which the core
//! never holds.

use crate::chan::{channel, TxChan};
use crate::client::EventLoopThreadCommand;
use crate::io_loop::find_index;
use crate::message::{Call, CallResult, Cancel, Document, Message, Response, ResponseKind};
use crate::server::{Command, Context};
use vstd::prelude::*;

verus! {

/// The dispatcher's end of one running inbound call: the queue on which
/// it can tell the call to stop.
pub struct RunningRpc {
    pub commands: TxChan<Command>,
}

impl RunningRpc {
    /// Wraps the cancel queue of one running call.
    pub fn new(commands: TxChan<Command>) -> (r: RunningRpc)
        ensures
            r.commands == commands,
    {
        RunningRpc { commands }
    }
}

/// Whether `n` is one of the registered procedure names.
pub open spec fn has_name(s: Seq<String>, n: Seq<char>) -> bool {
    exists|i: int| 0 <= i < s.len() && s[i]@ == n
}

/// Whether `c` names one of the running inbound calls.
pub open spec fn has_running(s: Seq<(String, RunningRpc)>, c: Seq<char>) -> bool {
    exists|i: int| 0 <= i < s.len() && s[i].0@ == c
}

/// The dispatcher's state: the names the peer may call here, the running
/// inbound calls, and the way to the IO loop.
pub struct FunctionThread {
    pub remote_procedures: Vec<String>,
    pub running_rpc_calls: Vec<(String, RunningRpc)>,
    pub event_loop_sender: TxChan<EventLoopThreadCommand>,
}

impl FunctionThread {
    /// No two running calls share a context identifier.
    pub open spec fn wf(&self) -> bool {
        forall|i: int, j: int|
            0 <= i < j < self.running_rpc_calls@.len() ==> self.running_rpc_calls@[i].0@
                != self.running_rpc_calls@[j].0@
    }

    /// A fresh dispatcher with nothing registered and nothing running.
    pub fn new(event_loop_sender: TxChan<EventLoopThreadCommand>) -> (r: FunctionThread)
        ensures
            r.remote_procedures@ == Seq::<String>::empty(),
            r.running_rpc_calls@ == Seq::<(String, RunningRpc)>::empty(),
            r.event_loop_sender == event_loop_sender,
            r.wf(),
    {
        FunctionThread {
            remote_procedures: Vec::new(),
            running_rpc_calls: Vec::new(),
            event_loop_sender,
        }
    }

    /// Records that the peer has acknowledged a procedure under this
    /// name; from now on inbound calls for it are dispatched.
    pub fn register(&mut self, name: String)
        ensures
            final(self).running_rpc_calls == old(self).running_rpc_calls,
            final(self).event_loop_sender == old(self).event_loop_sender,
            final(self).wf() == old(self).wf(),
            has_name(final(self).remote_procedures@, name@),
            forall|n: Seq<char>|
                has_name(final(self).remote_procedures@, n) <==> (has_name(
                    old(self).remote_procedures@,
                    n,
                ) || n == name@),
    {
        let ghost pre = self.remote_procedures@;
        let ghost namev = name@;
        self.remote_procedures.push(name);
        proof {
            let fin = self.remote_procedures@;
            assert(fin[fin.len() - 1]@ == namev);
            assert forall|n: Seq<char>| has_name(fin, n) implies (has_name(pre, n) || n
                == namev) by {
                let k = choose|k: int| 0 <= k < fin.len() && fin[k]@ == n;
                if k < fin.len() - 1 {
                    assert(pre[k]@ == n);
                }
            }
            assert forall|n: Seq<char>| has_name(pre, n) implies has_name(fin, n) by {
                let k = choose|k: int| 0 <= k < pre.len() && pre[k]@ == n;
                assert(fin[k]@ == n);
            }
        }
    }

    /// One inbound call from the peer.  For a registered name, a fresh
    /// cancel queue and context are made, the call is entered into the
    /// running map, and the context is handed back together with the
    /// arguments, for the host to run the procedure with.  For an
    /// unregistered name nothing runs, and the peer is answered with a
    /// not-handled terminal so it is not left waiting.
    pub fn handle_call(&mut self, rpc_call: Call) -> (r: Option<(Context, Document)>)
        requires
            old(self).wf(),
        ensures
            final(self).wf(),
            final(self).remote_procedures == old(self).remote_procedures,
            r is Some <==> has_name(old(self).remote_procedures@, rpc_call.function@),
            r matches Some((ctx, args)) ==> ({
                &&& ctx.state is Alive
                &&& ctx.wf()
                &&& ctx.context == rpc_call.context
                &&& args == rpc_call.args
                &&& has_running(final(self).running_rpc_calls@, rpc_call.context@)
                &&& (forall|c: Seq<char>|
                    has_running(final(self).running_rpc_calls@, c) <==> (has_running(
                        old(self).running_rpc_calls@,
                        c,
                    ) || c == rpc_call.context@))
                &&& final(self).event_loop_sender.sent@ == old(self).event_loop_sender.sent@
            }),
            r is None ==> ({
                &&& final(self).running_rpc_calls == old(self).running_rpc_calls
                &&& (final(self).event_loop_sender.sent@ == old(self).event_loop_sender.sent@.push(
                    EventLoopThreadCommand::Send(
                        Message::RpcResponse(
                            Response {
                                context: rpc_call.context,
                                kind: ResponseKind::Last(CallResult::NotHandled),
                            },
                        ),
                    ),
                ) || final(self).event_loop_sender.sent@ == old(self).event_loop_sender.sent@)
            }),
    {
        match find_index_name(&self.remote_procedures, &rpc_call.function) {
            Some(_) => {
                let (tx, rx) = channel::<Command>();
                let context_id = rpc_call.context.clone();
                let sender = self.event_loop_sender.duplicate();
                let ctx = Context::new(rpc_call.context.clone(), rx, sender);
                let ghost pre = self.running_rpc_calls@;
                let ghost ctxv = context_id@;
                match find_index(&self.running_rpc_calls, &context_id) {
                    Some(i) => {
                        proof {
                            assert forall|k: int|
                                0 <= k < pre.len() && pre[k].0@ == ctxv implies k == i as int by {
                                if k != i as int {
                                    assert(pre[i as int].0@ == ctxv);
                                }
                            }
                        }
                        let _ = self.running_rpc_calls.remove(i);
                        proof {
                            let mid = self.running_rpc_calls@;
                            assert forall|c: Seq<char>| has_running(mid, c) implies has_running(
                                pre,
                                c,
                            ) by {
                                let k = choose|k: int| 0 <= k < mid.len() && mid[k].0@ == c;
                                if k < i as int {
                                    assert(pre[k].0@ == c);
                                } else {
                                    assert(pre[k + 1].0@ == c);
                                }
                            }
                            assert forall|c: Seq<char>|
                                has_running(pre, c) && c != ctxv implies has_running(mid, c) by {
                                let k = choose|k: int| 0 <= k < pre.len() && pre[k].0@ == c;
                                if k < i as int {
                                    assert(mid[k].0@ == c);
                                } else {
                                    assert(mid[k - 1].0@ == c);
                                }
                            }
                        }
                        let ghost mid = self.running_rpc_calls@;
                        self.running_rpc_calls.push((context_id, RunningRpc::new(tx)));
                        proof {
                            lemma_has_running_push(mid, self.running_rpc_calls@, ctxv);
                        }
                        Some((ctx, rpc_call.args))
                    },
                    None => {
                        let ghost mid = self.running_rpc_calls@;
                        self.running_rpc_calls.push((context_id, RunningRpc::new(tx)));
                        proof {
                            lemma_has_running_push(mid, self.running_rpc_calls@, ctxv);
                        }
                        Some((ctx, rpc_call.args))
                    },
                }
            },
            None => {
                let msg = Message::RpcResponse(
                    Response { context: rpc_call.context, kind: ResponseKind::Last(CallResult::NotHandled) },
                );
                let _ = self.event_loop_sender.send(EventLoopThreadCommand::Send(msg));
                None
            },
        }
    }

    /// A cancellation from the peer.  The running call with that context,
    /// if any, is removed from the map and told to stop; it may already
    /// have finished on its own, which is no error, and a context that
    /// nothing here is running is ignored.
    pub fn handle_cancel(&mut self, rpc_cancel: Cancel)
        requires
            old(self).wf(),
        ensures
            final(self).wf(),
            final(self).remote_procedures == old(self).remote_procedures,
            final(self).event_loop_sender == old(self).event_loop_sender,
            !has_running(final(self).running_rpc_calls@, rpc_cancel.context@),
            forall|c: Seq<char>|
                c != rpc_cancel.context@ ==> (has_running(final(self).running_rpc_calls@, c)
                    <==> has_running(old(self).running_rpc_calls@, c)),
    {
        let ghost pre = self.running_rpc_calls@;
        let ghost ctxv = rpc_cancel.context@;
        match find_index(&self.running_rpc_calls, &rpc_cancel.context) {
            Some(i) => {
                proof {
                    assert forall|k: int|
                        0 <= k < pre.len() && pre[k].0@ == ctxv implies k == i as int by {
                        if k != i as int {
                            assert(pre[i as int].0@ == ctxv);
                        }
                    }
                }
                let mut entry = self.running_rpc_calls.remove(i);
                let _ = entry.0;
                let _ = entry.1.commands.send(Command::Cancel);
                proof {
                    let fin = self.running_rpc_calls@;
                    assert forall|c: Seq<char>| has_running(fin, c) implies has_running(
                        pre,
                        c,
                    ) && c != ctxv by {
                        let k = choose|k: int| 0 <= k < fin.len() && fin[k].0@ == c;
                        if k < i as int {
                            assert(pre[k].0@ == c);
                        } else {
                            assert(pre[k + 1].0@ == c);
                        }
                    }
                    assert forall|c: Seq<char>|
                        has_running(pre, c) && c != ctxv implies has_running(fin, c) by {
                        let k = choose|k: int| 0 <= k < pre.len() && pre[k].0@ == c;
                        if k < i as int {
                            assert(fin[k].0@ == c);
                        } else {
                            assert(fin[k - 1].0@ == c);
                        }
                    }
                }
            },
            None => {
            },
        }
    }
}

/// After pushing an entry for `c`, the running map holds `c` and
/// everything it held before, and nothing else.
proof fn lemma_has_running_push(pre: Seq<(String, RunningRpc)>, fin: Seq<(String, RunningRpc)>, c: Seq<char>)
    requires
        fin.len() == pre.len() + 1,
        forall|k: int| 0 <= k < pre.len() ==> fin[k] == pre[k],
        fin[fin.len() - 1].0@ == c,
    ensures
        has_running(fin, c),
        forall|n: Seq<char>| has_running(fin, n) <==> (has_running(pre, n) || n == c),
{
    assert forall|n: Seq<char>| has_running(fin, n) implies (has_running(pre, n) || n == c) by {
        let k = choose|k: int| 0 <= k < fin.len() && fin[k].0@ == n;
        if k < fin.len() - 1 {
            assert(pre[k].0@ == n);
        }
    }
    assert forall|n: Seq<char>| has_running(pre, n) implies has_running(fin, n) by {
        let k = choose|k: int| 0 <= k < pre.len() && pre[k].0@ == n;
        assert(fin[k].0@ == n);
    }
}

/// The first registered name with the given text, if any.
fn find_index_name(v: &Vec<String>, name: &String) -> (r: Option<usize>)
    ensures
        r matches Some(i) ==> i < v@.len() && v@[i as int]@ == name@,
        r is None ==> forall|j: int| 0 <= j < v@.len() ==> v@[j]@ != name@,
{
    let n = v.len();
    let mut i: usize = 0;
    while i < n
        invariant
            n == v@.len(),
            i <= n,
            forall|j: int| 0 <= j < i ==> v@[j]@ != name@,
        decreases n - i,
    {
        if v[i] == *name {
            return Some(i);
        }
        i = i + 1;
    }
    None
}

} // verus!
