//! The inbound side: the context handed to a locally-registered procedure
//! for one call from the peer.  Its lifecycle invariant is the heart of
//! the protocol: exactly one terminal response leaves for a finished
//! call, and none for one that is still alive or was cancelled.

use crate::chan::{RxChan, TryRecvOutcome, TxChan};
use crate::client::{EventLoopThreadCommand, RpcClientContext};
use crate::message::{CallResult, Document, Message, Response, ResponseKind};
use vstd::prelude::*;

verus! {

/// What the dispatcher can tell a running inbound call.
pub enum Command {
    Cancel,
}

/// Where an inbound call stands in its life.
#[derive(Debug, Clone, Copy, PartialEq, Eq, Structural)]
pub enum ContextState {
    Alive,
    Finished,
    Cancelled,
}

/// Why an operation on an inbound context was refused.
#[derive(Debug, Clone, Copy, PartialEq, Eq, Structural)]
pub enum RpcError {
    /// The call is already finished or cancelled.
    RpcDone,
    /// The IO loop is gone; nothing can be sent any more.
    Disconnected,
}

/// A procedure served by this client.  The host that owns the handler
/// objects implements this; the core only ever needs the priority.
pub trait Rpc {
    /// Lower values win when the peer picks among several handlers.
    fn priority(&self) -> u16;

    /// Runs the procedure for one inbound call.  Expected to return
    /// quickly, offloading long work to a thread of its own.
    fn call(&self, context: Context, args: Document);
}

/// Whether one IO-loop command carries the terminal response of the call
/// with context identifier `c`.
pub open spec fn is_terminal_send(cmd: EventLoopThreadCommand, c: Seq<char>) -> bool {
    cmd matches EventLoopThreadCommand::Send(m) && m matches Message::RpcResponse(r)
        && r.context@ == c && r.kind is Last
}

/// How many commands in `sent` carry the terminal response of the call
/// with context identifier `c`.
pub open spec fn terminal_sends(sent: Seq<EventLoopThreadCommand>, c: Seq<char>) -> nat
    decreases sent.len(),
{
    if sent.len() == 0 {
        0
    } else {
        terminal_sends(sent.drop_last(), c) + if is_terminal_send(sent.last(), c) {
            1nat
        } else {
            0nat
        }
    }
}

/// Appending one command raises the terminal count by one exactly when
/// that command is a terminal response for the call.
pub proof fn lemma_terminal_sends_push(sent: Seq<EventLoopThreadCommand>, cmd: EventLoopThreadCommand, c: Seq<char>)
    ensures
        terminal_sends(sent.push(cmd), c) == terminal_sends(sent, c) + if is_terminal_send(
            cmd,
            c,
        ) {
            1nat
        } else {
            0nat
        },
{
    assert(sent.push(cmd).drop_last() =~= sent);
    assert(sent.push(cmd).last() == cmd);
}

/// The context of one inbound call, handed to the registered procedure.
/// `commands` is fed by the dispatcher (cancellation); everything the
/// call sends to the peer goes through `rpc_loop_commands`.
pub struct Context {
    pub context: String,
    pub commands: RxChan<Command>,
    pub rpc_loop_commands: TxChan<EventLoopThreadCommand>,
    pub state: ContextState,
}

impl Context {
    /// The lifecycle invariant: a finished call has sent exactly one
    /// terminal response, an alive or cancelled one none.
    pub open spec fn wf(&self) -> bool {
        &&& self.state is Finished ==> terminal_sends(
            self.rpc_loop_commands.sent@,
            self.context@,
        ) == 1
        &&& !(self.state is Finished) ==> terminal_sends(
            self.rpc_loop_commands.sent@,
            self.context@,
        ) == 0
    }

    /// For every inbound call, the peer is handed exactly one terminal
    /// message when the handler finished, and none at all when
    /// cancellation intervened before `finish` or the call is still
    /// running.
    pub proof fn lemma_one_terminal_per_inbound(ctx: Context)
        requires
            ctx.wf(),
        ensures
            terminal_sends(ctx.rpc_loop_commands.sent@, ctx.context@) == if ctx.state is Finished {
                1nat
            } else {
                0nat
            },
    {
    }

    /// A fresh context for the call with the given identifier, fed by the
    /// given cancel queue, sending through a channel that has carried no
    /// terminal for this call yet.
    pub fn new(
        context: String,
        commands: RxChan<Command>,
        rpc_loop_commands: TxChan<EventLoopThreadCommand>,
    ) -> (r: Context)
        requires
            terminal_sends(rpc_loop_commands.sent@, context@) == 0,
        ensures
            r == (Context { context, commands, rpc_loop_commands, state: ContextState::Alive }),
            r.wf(),
    {
        Context { context, commands, rpc_loop_commands, state: ContextState::Alive }
    }

    /// Polls the cancel queue without blocking.  A pending cancel, or a
    /// dispatcher that is gone, moves an alive call to cancelled; a call
    /// already finished or cancelled stays as it is.
    pub fn update_state(&mut self)
        ensures
            final(self).context == old(self).context,
            final(self).rpc_loop_commands == old(self).rpc_loop_commands,
            old(self).state is Alive ==> final(self).state is Alive || final(self).state is Cancelled,
            !(old(self).state is Alive) ==> final(self).state == old(self).state,
            final(self).state == old(self).state ==> final(self).commands.got@ == old(
                self,
            ).commands.got@,
            final(self).commands.got@ == old(self).commands.got@ || final(self).commands.got@
                == old(self).commands.got@.push(Command::Cancel),
            old(self).wf() ==> final(self).wf(),
    {
        if self.state == ContextState::Alive {
            match self.commands.try_recv() {
                TryRecvOutcome::Got(_) => {
                    self.state = ContextState::Cancelled;
                },
                TryRecvOutcome::Empty => {
                },
                TryRecvOutcome::Closed => {
                    self.state = ContextState::Cancelled;
                },
            }
        }
    }

    /// Refreshes the state and answers whether the call may still speak:
    /// `Ok` exactly in state alive, `RpcDone` otherwise.
    pub fn check_liveness(&mut self) -> (r: Result<(), RpcError>)
        ensures
            final(self).context == old(self).context,
            final(self).rpc_loop_commands == old(self).rpc_loop_commands,
            old(self).state is Alive ==> final(self).state is Alive || final(self).state is Cancelled,
            !(old(self).state is Alive) ==> final(self).state == old(self).state,
            final(self).state == old(self).state ==> final(self).commands.got@ == old(
                self,
            ).commands.got@,
            final(self).commands.got@ == old(self).commands.got@ || final(self).commands.got@
                == old(self).commands.got@.push(Command::Cancel),
            old(self).wf() ==> final(self).wf(),
            r is Ok <==> final(self).state is Alive,
            r matches Err(e) ==> e is RpcDone,
    {
        self.update_state();
        match self.state {
            ContextState::Alive => Ok(()),
            _ => Err(RpcError::RpcDone),
        }
    }

    /// Sends one partial result.  Permitted only while alive; a cancel
    /// that has already arrived makes it fail with `RpcDone` instead, and
    /// nothing is sent.  Never sends a terminal response.
    pub fn update(&mut self, args: Document) -> (r: Result<(), RpcError>)
        ensures
            final(self).context == old(self).context,
            old(self).wf() ==> final(self).wf(),
            r is Ok ==> ({
                &&& old(self).state is Alive
                &&& final(self).state is Alive
                &&& final(self).rpc_loop_commands.sent@ == old(self).rpc_loop_commands.sent@.push(
                    EventLoopThreadCommand::Send(
                        Message::RpcResponse(
                            Response {
                                context: old(self).context,
                                kind: ResponseKind::Partial(args),
                            },
                        ),
                    ),
                )
            }),
            r matches Err(e) ==> (e is RpcDone ==> !(final(self).state is Alive) && final(self).rpc_loop_commands.sent@ == old(self).rpc_loop_commands.sent@),
            r matches Err(e) ==> (e is Disconnected ==> final(self).state is Alive && final(self).rpc_loop_commands.sent@ == old(self).rpc_loop_commands.sent@),
    {
        match self.check_liveness() {
            Ok(_) => {
                let msg = Message::RpcResponse(
                    Response {
                        context: self.context.clone(),
                        kind: ResponseKind::Partial(args),
                    },
                );
                let ghost pre_sent = self.rpc_loop_commands.sent@;
                let sent = self.rpc_loop_commands.send(EventLoopThreadCommand::Send(msg));
                match sent {
                    Ok(_) => {
                        proof {
                            lemma_terminal_sends_push(
                                pre_sent,
                                self.rpc_loop_commands.sent@.last(),
                                self.context@,
                            );
                        }
                        Ok(())
                    },
                    Err(_) => Err(RpcError::Disconnected),
                }
            },
            Err(e) => Err(e),
        }
    }

    /// Polls the cancel queue and answers whether the call stands
    /// cancelled.
    pub fn cancelled(&mut self) -> (r: bool)
        ensures
            final(self).context == old(self).context,
            final(self).rpc_loop_commands == old(self).rpc_loop_commands,
            old(self).state is Alive ==> final(self).state is Alive || final(self).state is Cancelled,
            !(old(self).state is Alive) ==> final(self).state == old(self).state,
            final(self).state == old(self).state ==> final(self).commands.got@ == old(
                self,
            ).commands.got@,
            final(self).commands.got@ == old(self).commands.got@ || final(self).commands.got@
                == old(self).commands.got@.push(Command::Cancel),
            old(self).wf() ==> final(self).wf(),
            r == (final(self).state is Cancelled),
    {
        self.update_state();
        self.state == ContextState::Cancelled
    }

    /// Sends the terminal response and moves the call to finished.
    /// Permitted only while alive; after it, no further traffic for this
    /// call can ever pass the invariant.  If the IO loop is gone the call
    /// counts as cancelled, since the peer can never be answered.
    pub fn finish(&mut self, result: CallResult) -> (r: Result<(), RpcError>)
        ensures
            final(self).context == old(self).context,
            old(self).wf() ==> final(self).wf(),
            r is Ok ==> ({
                &&& old(self).state is Alive
                &&& final(self).state is Finished
                &&& final(self).rpc_loop_commands.sent@ == old(self).rpc_loop_commands.sent@.push(
                    EventLoopThreadCommand::Send(
                        Message::RpcResponse(
                            Response { context: old(self).context, kind: ResponseKind::Last(result) },
                        ),
                    ),
                )
            }),
            r matches Err(e) ==> (e is RpcDone ==> !(final(self).state is Alive) && !(final(self).state is Finished) == !(old(self).state is Finished) && final(self).rpc_loop_commands.sent@ == old(self).rpc_loop_commands.sent@),
            r matches Err(e) ==> (e is Disconnected ==> final(self).state is Cancelled && final(self).rpc_loop_commands.sent@ == old(self).rpc_loop_commands.sent@),
    {
        match self.check_liveness() {
            Ok(_) => {
                let msg = Message::RpcResponse(
                    Response {
                        context: self.context.clone(),
                        kind: ResponseKind::Last(result),
                    },
                );
                let ghost pre_sent = self.rpc_loop_commands.sent@;
                let sent = self.rpc_loop_commands.send(EventLoopThreadCommand::Send(msg));
                match sent {
                    Ok(_) => {
                        proof {
                            lemma_terminal_sends_push(
                                pre_sent,
                                self.rpc_loop_commands.sent@.last(),
                                self.context@,
                            );
                        }
                        self.state = ContextState::Finished;
                        Ok(())
                    },
                    Err(_) => {
                        self.state = ContextState::Cancelled;
                        Err(RpcError::Disconnected)
                    },
                }
            },
            Err(e) => Err(e),
        }
    }

    /// Starts an outbound call on the same connection, permitted only
    /// while this inbound call is alive.
    pub fn call(&mut self, function: &str, args: Document) -> (r: Result<
        RpcClientContext,
        RpcError,
    >)
        ensures
            final(self).context == old(self).context,
            final(self).rpc_loop_commands == old(self).rpc_loop_commands,
            old(self).wf() ==> final(self).wf(),
            r matches Ok(c) ==> final(self).state is Alive && c.result is None,
            r matches Err(e) ==> (e is RpcDone ==> !(final(self).state is Alive)),
    {
        match self.check_liveness() {
            Ok(_) => {
                match RpcClientContext::new(&self.rpc_loop_commands, function, args) {
                    Ok(c) => Ok(c),
                    Err(_) => Err(RpcError::Disconnected),
                }
            },
            Err(e) => Err(e),
        }
    }

    /// True while the call still owes its peer a terminal message.  A
    /// context abandoned in this state is a programming error; the host
    /// that runs handlers checks it on destruction and fails hard.
    pub fn is_alive(&self) -> (r: bool)
        ensures
            r == (self.state is Alive),
    {
        self.state == ContextState::Alive
    }
}

} // verus!
