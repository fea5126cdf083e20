//! The consumer-facing side of the core: the outbound call handle that a
//! user drains for streamed replies, and the client object that issues
//! calls and registers local procedures with the peer.

use crate::chan::{channel, RxChan, TxChan};
use crate::message::{lemma_object_view, Call, CallResult, Cancel, DocV, Document, Message, Response, ResponseKind};
use vstd::prelude::*;

verus! {

/// Commands consumed by the IO loop, the single owner of the socket.
pub enum EventLoopThreadCommand {
    Quit,
    Send(Message),
    Call(String, TxChan<Response>, Message),
}

/// Commands consumed by the dispatcher that runs local procedures.
/// Registration names the procedure and the priority the peer was told;
/// the procedure object itself stays with the host that runs handlers.
pub enum FunctionThreadCommand {
    Quit,
    NewRpc(String, u16),
    Call(Call),
    Cancel(Cancel),
}

/// Why an outbound call could not deliver what was asked of it.
#[derive(Debug)]
pub enum RpcClientContextError {
    /// The IO loop or the peer is gone.
    Disconnected,
    /// The terminal result was not a success; the offending result is
    /// carried along.
    InvalidOrUnexpectedReply(CallResult),
}

/// Relies on uuid::Uuid::new_v4 and its hyphenated text form: a fresh
/// random identifier, 36 characters long.
#[verifier::external_body]
fn fresh_context_id() -> (r: String)
    ensures
        r@.len() == 36,
{
    uuid::Uuid::new_v4().hyphenated().to_string()
}

/// The handle for one outbound call.  The IO loop feeds `values`; the
/// user drains it with `recv` until the terminal result latches into
/// `result`.
pub struct RpcClientContext {
    pub context: String,
    pub values: RxChan<Response>,
    pub result: Option<CallResult>,
    pub event_loop_sender: TxChan<EventLoopThreadCommand>,
}

impl RpcClientContext {
    /// Starts an outbound call: picks a fresh context identifier, opens
    /// the response queue, and hands the IO loop the mapping together
    /// with the call message in one command, so the mapping exists before
    /// the message is written.
    pub fn new(event_loop_sender: &TxChan<EventLoopThreadCommand>, function: &str, args: Document)
        -> (r: Result<RpcClientContext, RpcClientContextError>)
        ensures
            r matches Ok(c) ==> ({
                &&& c.result is None
                &&& c.values.got@ == Seq::<Response>::empty()
                &&& c.context@.len() == 36
                &&& c.event_loop_sender.sent@.len() == 1
                &&& (c.event_loop_sender.sent@[0] matches EventLoopThreadCommand::Call(ctx, _, m)
                    && ctx == c.context && m == Message::RpcCall(
                    Call { function: m->RpcCall_0.function, context: c.context, args: args },
                ) && m->RpcCall_0.function@ == function@)
            }),
            r matches Err(e) ==> e is Disconnected,
    {
        let context = fresh_context_id();
        let message = Message::RpcCall(
            Call { function: function.to_owned(), context: context.clone(), args },
        );
        let (tx, rx) = channel::<Response>();
        let mut sender = event_loop_sender.duplicate();
        let sent = sender.send(EventLoopThreadCommand::Call(context.clone(), tx, message));
        match sent {
            Ok(_) => Ok(
                RpcClientContext {
                    context,
                    values: rx,
                    result: None,
                    event_loop_sender: sender,
                },
            ),
            Err(_) => Err(RpcClientContextError::Disconnected),
        }
    }

    /// Blocks for the next response frame.  Once the terminal result has
    /// latched, every further `recv` answers `Ok(None)` at once, without
    /// touching the queue, and the latch never changes again.
    pub fn recv(&mut self) -> (r: Result<Option<Document>, RpcClientContextError>)
        ensures
            final(self).context == old(self).context,
            final(self).event_loop_sender == old(self).event_loop_sender,
            old(self).result is Some ==> *final(self) == *old(self) && (r matches Ok(o) && o
                is None),
            r matches Ok(o) ==> (o matches Some(d) ==> ({
                &&& old(self).result is None
                &&& final(self).result is None
                &&& final(self).values.got@ == old(self).values.got@.push(
                    final(self).values.got@.last(),
                )
                &&& final(self).values.got@.last().kind == ResponseKind::Partial(d)
            })),
            r matches Ok(o) ==> ((o is None && old(self).result is None) ==> ({
                &&& final(self).values.got@ == old(self).values.got@.push(
                    final(self).values.got@.last(),
                )
                &&& (final(self).values.got@.last().kind matches ResponseKind::Last(res)
                    && final(self).result == Some(res))
            })),
            r is Err ==> ({
                &&& final(self).result == old(self).result
                &&& old(self).result is None
                &&& final(self).values.got@ == old(self).values.got@
                &&& (r matches Err(e) && e is Disconnected)
            }),
    {
        if self.result.is_some() {
            return Ok(None);
        }
        match self.values.recv() {
            Ok(rpc_response) => match rpc_response.kind {
                ResponseKind::Partial(value) => Ok(Some(value)),
                ResponseKind::Last(result) => {
                    self.result = Some(result);
                    Ok(None)
                },
            },
            Err(_) => Err(RpcClientContextError::Disconnected),
        }
    }

    /// Drains `recv` to completion and hands out the latched terminal
    /// result, clearing the latch.  At most one terminal result is ever
    /// handed out for a call.
    pub fn wait(&mut self) -> (r: Result<CallResult, RpcClientContextError>)
        ensures
            final(self).context == old(self).context,
            final(self).event_loop_sender == old(self).event_loop_sender,
            r matches Ok(res) ==> ({
                &&& final(self).result is None
                &&& (old(self).result == Some(res) || (final(self).values.got@.len() > 0 && final(self).values.got@.last().kind == ResponseKind::Last(res)))
            }),
            r matches Err(e) ==> e is Disconnected && old(self).result is None && final(self).result is None,
    {
        let mut budget: u64 = u64::MAX;
        loop
            invariant_except_break
                budget < u64::MAX ==> old(self).result is None && self.result is None,
            invariant
                self.context == old(self).context,
                self.event_loop_sender == old(self).event_loop_sender,
                old(self).result is Some ==> self.result == old(self).result,
                self.result is Some ==> (self.result == old(self).result || (
                self.values.got@.len() > 0 && self.values.got@.last().kind == ResponseKind::Last(
                    self.result.unwrap(),
                ))),
            ensures
                self.context == old(self).context,
                self.event_loop_sender == old(self).event_loop_sender,
                self.result is Some,
                self.result == old(self).result || (self.values.got@.len() > 0
                    && self.values.got@.last().kind == ResponseKind::Last(self.result.unwrap())),
            decreases budget,
        {
            if budget == 0 {
                return Err(RpcClientContextError::Disconnected);
            }
            budget = budget - 1;
            match self.recv() {
                Ok(opt) => match opt {
                    Some(_) => {
                    },
                    None => {
                        break;
                    },
                },
                Err(e) => {
                    return Err(e);
                },
            }
        }
        match self.result.take() {
            Some(res) => Ok(res),
            None => {
                proof {
                    assert(false);
                }
                Err(RpcClientContextError::Disconnected)
            },
        }
    }

    /// Like `wait`, but succeeds only on a successful terminal result,
    /// handing out its payload document; any other terminal result is
    /// returned as the reply error.
    pub fn wait_for(&mut self) -> (r: Result<Document, RpcClientContextError>)
        ensures
            final(self).context == old(self).context,
            final(self).event_loop_sender == old(self).event_loop_sender,
            r matches Ok(d) ==> ({
                &&& final(self).result is None
                &&& (old(self).result == Some(CallResult::Success(d)) || (final(self).values.got@.len() > 0 && final(self).values.got@.last().kind
                    == ResponseKind::Last(CallResult::Success(d))))
            }),
            r matches Err(e) ==> (e matches RpcClientContextError::InvalidOrUnexpectedReply(res)
                ==> ({
                &&& !(res is Success)
                &&& final(self).result is None
                &&& (old(self).result == Some(res) || (final(self).values.got@.len() > 0 && final(self).values.got@.last().kind == ResponseKind::Last(res)))
            })),
            r matches Err(e) ==> (e is Disconnected ==> old(self).result is None && final(self).result is None),
    {
        match self.wait() {
            Ok(res) => match res {
                CallResult::Success(value) => Ok(value),
                other => Err(RpcClientContextError::InvalidOrUnexpectedReply(other)),
            },
            Err(e) => Err(e),
        }
    }

    /// Asks the peer to cancel this call.  Fire-and-forget: the request
    /// is queued for the IO loop and nothing is awaited; a trailing
    /// terminal from the peer is still processed normally.  Issued after
    /// the terminal has latched it still only sends, and the latch stays.
    pub fn cancel(&mut self) -> (r: Result<(), RpcClientContextError>)
        ensures
            final(self).context == old(self).context,
            final(self).result == old(self).result,
            final(self).values == old(self).values,
            r is Ok ==> final(self).event_loop_sender.sent@ == old(self).event_loop_sender.sent@.push(
                EventLoopThreadCommand::Send(
                    Message::RpcCancel(Cancel { context: old(self).context }),
                ),
            ),
            r matches Err(e) ==> e is Disconnected && final(self).event_loop_sender.sent@ == old(self).event_loop_sender.sent@,
    {
        let msg = Message::RpcCancel(Cancel { context: self.context.clone() });
        match self.event_loop_sender.send(EventLoopThreadCommand::Send(msg)) {
            Ok(_) => Ok(()),
            Err(_) => Err(RpcClientContextError::Disconnected),
        }
    }
}

/// A locally-registered procedure.  The host that runs handlers
/// implements this for its handler objects; the core only carries the
/// name and priority to the peer.
pub trait RemoteProcedure {
    /// Lower values win when the peer picks among several handlers.
    fn priority(&self) -> u16;

    /// Runs the procedure for one inbound call.  Expected to return
    /// quickly, offloading long work to a thread of its own.
    fn call(&mut self, context: RpcServerContext, args: Document);
}

/// The document shape of a `core.new_rpc` argument object: the priority
/// the peer is told, and the name to be served.
pub open spec fn new_rpc_args_v(priority: u16, name: Seq<char>) -> DocV {
    DocV::Object(seq![("priority"@, DocV::Int(priority as int)), ("name"@, DocV::Text(name))])
}

/// Whether one IO-loop command begins the `core.new_rpc` registration
/// call for the given name and priority.
pub open spec fn is_new_rpc_call(cmd: EventLoopThreadCommand, priority: u16, name: Seq<char>) -> bool {
    cmd matches EventLoopThreadCommand::Call(ctx, _, m) && (m matches Message::RpcCall(c)
        && c.function@ == "core.new_rpc"@ && c.context == ctx && c.args@ == new_rpc_args_v(
        priority,
        name,
    ))
}

/// The client: one handle to the IO loop's command queue and one to the
/// dispatcher's.  The threads themselves, and the socket, live with the
/// host.
pub struct Client {
    pub event_loop_sender: TxChan<EventLoopThreadCommand>,
    pub function_thread_sender: TxChan<FunctionThreadCommand>,
}

impl Client {
    /// Wraps the two command queues of a connected client.
    pub fn new(
        event_loop_sender: TxChan<EventLoopThreadCommand>,
        function_thread_sender: TxChan<FunctionThreadCommand>,
    ) -> (r: Client)
        ensures
            r.event_loop_sender == event_loop_sender,
            r.function_thread_sender == function_thread_sender,
    {
        Client { event_loop_sender, function_thread_sender }
    }

    /// Registers a local procedure: first tells the peer through the
    /// `core.new_rpc` call and waits for its acknowledgement, and only
    /// after a successful acknowledgement hands the dispatcher the
    /// registration.  On any failure nothing reaches the dispatcher, so
    /// the peer always learns a name before the dispatcher can be asked
    /// to run it.
    pub fn new_rpc(&mut self, name: &str, priority: u16) -> (r: Result<
        (),
        RpcClientContextError,
    >)
        ensures
            r is Ok ==> ({
                &&& final(self).event_loop_sender.sent@ == old(self).event_loop_sender.sent@.push(
                    final(self).event_loop_sender.sent@.last(),
                )
                &&& is_new_rpc_call(final(self).event_loop_sender.sent@.last(), priority, name@)
                &&& final(self).function_thread_sender.sent@ == old(
                    self,
                ).function_thread_sender.sent@.push(final(self).function_thread_sender.sent@.last())
                &&& (final(self).function_thread_sender.sent@.last()
                    matches FunctionThreadCommand::NewRpc(n, p) && n@ == name@ && p == priority)
            }),
            r is Err ==> ({
                &&& final(self).function_thread_sender.sent@ == old(
                    self,
                ).function_thread_sender.sent@
                &&& (final(self).event_loop_sender.sent@ == old(self).event_loop_sender.sent@ || (
                final(self).event_loop_sender.sent@ == old(self).event_loop_sender.sent@.push(
                    final(self).event_loop_sender.sent@.last(),
                ) && is_new_rpc_call(final(self).event_loop_sender.sent@.last(), priority, name@)))
            }),
    {
        let ghost namev = name@;
        let mut fields: Vec<(String, Document)> = Vec::new();
        fields.push(("priority".to_owned(), Document::Int(priority as i64)));
        fields.push(("name".to_owned(), Document::Text(name.to_owned())));
        let args = Document::Object(fields);
        proof {
            lemma_object_view(args);
            assert(args@->Object_0 =~= seq![
                ("priority"@, DocV::Int(priority as int)),
                ("name"@, DocV::Text(namev)),
            ]);
        }
        let context = fresh_context_id();
        let message = Message::RpcCall(
            Call {
                function: "core.new_rpc".to_owned(),
                context: context.clone(),
                args,
            },
        );
        let (tx, rx) = channel::<Response>();
        let sent = self.event_loop_sender.send(
            EventLoopThreadCommand::Call(context.clone(), tx, message),
        );
        if sent.is_err() {
            return Err(RpcClientContextError::Disconnected);
        }
        let mut rpc = RpcClientContext {
            context,
            values: rx,
            result: None,
            event_loop_sender: self.event_loop_sender.duplicate(),
        };
        match rpc.wait() {
            Ok(res) => match res {
                CallResult::Success(_) => {
                    let cmd = FunctionThreadCommand::NewRpc(name.to_owned(), priority);
                    match self.function_thread_sender.send(cmd) {
                        Ok(_) => Ok(()),
                        Err(_) => Err(RpcClientContextError::Disconnected),
                    }
                },
                other => Err(RpcClientContextError::InvalidOrUnexpectedReply(other)),
            },
            Err(e) => Err(e),
        }
    }

    /// Starts an outbound call on this connection.
    pub fn call(&self, function: &str, args: Document) -> (r: Result<
        RpcClientContext,
        RpcClientContextError,
    >)
        ensures
            r matches Ok(c) ==> ({
                &&& c.result is None
                &&& c.values.got@ == Seq::<Response>::empty()
                &&& c.context@.len() == 36
                &&& c.event_loop_sender.sent@.len() == 1
                &&& (c.event_loop_sender.sent@[0] matches EventLoopThreadCommand::Call(ctx, _, m)
                    && ctx == c.context && m == Message::RpcCall(
                    Call { function: m->RpcCall_0.function, context: c.context, args: args },
                ) && m->RpcCall_0.function@ == function@)
            }),
            r matches Err(e) ==> e is Disconnected,
    {
        RpcClientContext::new(&self.event_loop_sender, function, args)
    }

    /// A cheap handle that can start calls but not register procedures.
    pub fn new_sender(&self) -> (r: Sender)
        ensures
            r.event_loop_sender.sent@ == Seq::<EventLoopThreadCommand>::empty(),
    {
        Sender { event_loop_sender: self.event_loop_sender.duplicate() }
    }

    /// Asks both worker loops to stop.  Safe to call more than once and
    /// tolerant of workers that are already gone; nothing else is ever
    /// enqueued by it.
    pub fn shutdown(&mut self)
        ensures
            final(self).event_loop_sender.sent@ == old(self).event_loop_sender.sent@.push(
                EventLoopThreadCommand::Quit,
            ) || final(self).event_loop_sender.sent@ == old(self).event_loop_sender.sent@,
            final(self).function_thread_sender.sent@ == old(self).function_thread_sender.sent@.push(
                FunctionThreadCommand::Quit,
            ) || final(self).function_thread_sender.sent@ == old(
                self,
            ).function_thread_sender.sent@,
    {
        let _ = self.function_thread_sender.send(FunctionThreadCommand::Quit);
        let _ = self.event_loop_sender.send(EventLoopThreadCommand::Quit);
    }
}

/// A call-only endpoint: it carries just the IO loop's command queue.
pub struct Sender {
    pub event_loop_sender: TxChan<EventLoopThreadCommand>,
}

impl Sender {
    /// Starts an outbound call on this connection.
    pub fn call(&self, function: &str, args: Document) -> (r: Result<
        RpcClientContext,
        RpcClientContextError,
    >)
        ensures
            r matches Ok(c) ==> ({
                &&& c.result is None
                &&& c.values.got@ == Seq::<Response>::empty()
                &&& c.context@.len() == 36
                &&& c.event_loop_sender.sent@.len() == 1
                &&& (c.event_loop_sender.sent@[0] matches EventLoopThreadCommand::Call(ctx, _, m)
                    && ctx == c.context && m == Message::RpcCall(
                    Call { function: m->RpcCall_0.function, context: c.context, args: args },
                ) && m->RpcCall_0.function@ == function@)
            }),
            r matches Err(e) ==> e is Disconnected,
    {
        RpcClientContext::new(&self.event_loop_sender, function, args)
    }

    /// Another handle onto the same queue.
    pub fn duplicate(&self) -> (r: Sender)
        ensures
            r.event_loop_sender.sent@ == Seq::<EventLoopThreadCommand>::empty(),
    {
        Sender { event_loop_sender: self.event_loop_sender.duplicate() }
    }
}

/// Why an operation on an inbound context was refused, told apart by the
/// state the context was in.
#[derive(Debug, Clone, Copy, PartialEq, Eq, Structural)]
pub enum RpcServerContextError {
    Finished,
    Cancelled,
    Disconnected,
}

/// The context of one inbound call, under the older consumer-facing
/// surface: the same lifecycle as `server::Context`, with the refusal
/// reason split by state.
pub struct RpcServerContext {
    pub inner: crate::server::Context,
}

impl RpcServerContext {
    /// A fresh context for the call with the given identifier.
    pub fn new(
        context: String,
        commands: crate::chan::RxChan<crate::server::Command>,
        event_loop_sender: TxChan<EventLoopThreadCommand>,
    ) -> (r: RpcServerContext)
        requires
            crate::server::terminal_sends(event_loop_sender.sent@, context@) == 0,
        ensures
            r.inner.context == context,
            r.inner.state is Alive,
            r.inner.wf(),
            r.inner.rpc_loop_commands == event_loop_sender,
    {
        RpcServerContext { inner: crate::server::Context::new(context, commands, event_loop_sender) }
    }

    /// Starts an outbound call on the same connection, permitted only
    /// while this inbound call is alive.
    pub fn call(&mut self, function: &str, args: Document) -> (r: Result<
        RpcClientContext,
        RpcServerContextError,
    >)
        ensures
            final(self).inner.context == old(self).inner.context,
            final(self).inner.rpc_loop_commands == old(self).inner.rpc_loop_commands,
            old(self).inner.wf() ==> final(self).inner.wf(),
            r matches Ok(c) ==> final(self).inner.state is Alive && c.result is None,
    {
        match self.inner.call(function, args) {
            Ok(c) => Ok(c),
            Err(e) => Err(self.refusal(e)),
        }
    }

    /// Sends one partial result, permitted only while alive.
    pub fn update(&mut self, args: Document) -> (r: Result<(), RpcServerContextError>)
        ensures
            final(self).inner.context == old(self).inner.context,
            old(self).inner.wf() ==> final(self).inner.wf(),
            r is Ok ==> ({
                &&& old(self).inner.state is Alive
                &&& final(self).inner.state is Alive
                &&& final(self).inner.rpc_loop_commands.sent@ == old(
                    self,
                ).inner.rpc_loop_commands.sent@.push(
                    EventLoopThreadCommand::Send(
                        Message::RpcResponse(
                            Response {
                                context: old(self).inner.context,
                                kind: ResponseKind::Partial(args),
                            },
                        ),
                    ),
                )
            }),
            r matches Err(e) ==> (e is Finished ==> final(self).inner.state is Finished),
            r matches Err(e) ==> (e is Cancelled ==> final(self).inner.state is Cancelled),
            r is Err ==> final(self).inner.rpc_loop_commands.sent@ == old(
                self,
            ).inner.rpc_loop_commands.sent@,
    {
        match self.inner.update(args) {
            Ok(_) => Ok(()),
            Err(e) => Err(self.refusal(e)),
        }
    }

    /// Polls the cancel queue and answers whether the call stands
    /// cancelled.
    pub fn cancelled(&mut self) -> (r: bool)
        ensures
            final(self).inner.context == old(self).inner.context,
            final(self).inner.rpc_loop_commands == old(self).inner.rpc_loop_commands,
            old(self).inner.wf() ==> final(self).inner.wf(),
            r == (final(self).inner.state is Cancelled),
    {
        self.inner.cancelled()
    }

    /// Sends the terminal response and moves the call to finished,
    /// permitted only while alive.
    pub fn finish(&mut self, result: CallResult) -> (r: Result<(), RpcServerContextError>)
        ensures
            final(self).inner.context == old(self).inner.context,
            old(self).inner.wf() ==> final(self).inner.wf(),
            r is Ok ==> ({
                &&& old(self).inner.state is Alive
                &&& final(self).inner.state is Finished
                &&& final(self).inner.rpc_loop_commands.sent@ == old(
                    self,
                ).inner.rpc_loop_commands.sent@.push(
                    EventLoopThreadCommand::Send(
                        Message::RpcResponse(
                            Response {
                                context: old(self).inner.context,
                                kind: ResponseKind::Last(result),
                            },
                        ),
                    ),
                )
            }),
            r is Err ==> final(self).inner.rpc_loop_commands.sent@ == old(
                self,
            ).inner.rpc_loop_commands.sent@,
            r matches Err(e) ==> (e is Finished ==> final(self).inner.state is Finished),
            r matches Err(e) ==> (e is Cancelled ==> final(self).inner.state is Cancelled),
            r matches Err(e) ==> (e is Disconnected ==> final(self).inner.state is Cancelled),
    {
        match self.inner.finish(result) {
            Ok(_) => Ok(()),
            Err(e) => Err(self.refusal(e)),
        }
    }

    /// True while the call still owes its peer a terminal message; a
    /// context abandoned in this state is a programming error that the
    /// host fails hard on at destruction.
    pub fn is_alive(&self) -> (r: bool)
        ensures
            r == (self.inner.state is Alive),
    {
        self.inner.is_alive()
    }

    /// Names the state that refused an operation.
    fn refusal(&self, e: crate::server::RpcError) -> (r: RpcServerContextError)
        ensures
            e is Disconnected ==> r is Disconnected,
            e is RpcDone && self.inner.state is Finished ==> r is Finished,
            e is RpcDone && !(self.inner.state is Finished) ==> r is Cancelled,
    {
        match e {
            crate::server::RpcError::Disconnected => RpcServerContextError::Disconnected,
            crate::server::RpcError::RpcDone => {
                if self.inner.state == crate::server::ContextState::Finished {
                    RpcServerContextError::Finished
                } else {
                    RpcServerContextError::Cancelled
                }
            },
        }
    }
}

} // verus!
