use swiboe::chan::{channel, TryRecvOutcome};
use swiboe::client::{Client, EventLoopThreadCommand, FunctionThreadCommand, RpcClientContext};
use swiboe::dispatcher::FunctionThread;
use swiboe::io_loop::{Handler, IoAction};
use swiboe::message::{Call, CallResult, Document, Message, Response, ResponseKind};

fn blub_doc() -> Document {
    Document::Object(vec![(
        "blub".to_owned(),
        Document::Text("blah".to_owned()),
    )])
}

#[test]
fn begin_call_enters_the_map_and_writes() {
    let (ft_tx, _ft_rx) = channel::<FunctionThreadCommand>();
    let mut handler = Handler::new(ft_tx);
    let (io_tx, mut io_rx) = channel::<EventLoopThreadCommand>();
    let rpc = RpcClientContext::new(&io_tx, "echo", Document::Null).unwrap();
    let command = io_rx.recv().unwrap();
    match handler.handle_command(command) {
        IoAction::Write(Message::RpcCall(call)) => {
            assert_eq!(call.context, rpc.context);
        }
        _ => panic!("a new call did not ask for a write"),
    }
}

#[test]
fn responses_are_routed_in_order_and_terminal_removes_the_mapping() {
    let (ft_tx, _ft_rx) = channel::<FunctionThreadCommand>();
    let mut handler = Handler::new(ft_tx);
    let (io_tx, mut io_rx) = channel::<EventLoopThreadCommand>();
    let mut rpc = RpcClientContext::new(&io_tx, "echo", Document::Null).unwrap();
    let command = io_rx.recv().unwrap();
    handler.handle_command(command);

    let context = rpc.context.clone();
    handler.route_inbound(Message::RpcResponse(Response {
        context: context.clone(),
        kind: ResponseKind::Partial(Document::Int(1)),
    }));
    handler.route_inbound(Message::RpcResponse(Response {
        context: context.clone(),
        kind: ResponseKind::Partial(Document::Int(2)),
    }));
    handler.route_inbound(Message::RpcResponse(Response {
        context: context.clone(),
        kind: ResponseKind::Last(CallResult::Success(Document::Null)),
    }));
    // A duplicate terminal finds no mapping any more and is dropped.
    handler.route_inbound(Message::RpcResponse(Response {
        context: context.clone(),
        kind: ResponseKind::Last(CallResult::Success(Document::Int(9))),
    }));

    assert_eq!(rpc.recv().unwrap(), Some(Document::Int(1)));
    assert_eq!(rpc.recv().unwrap(), Some(Document::Int(2)));
    assert_eq!(rpc.recv().unwrap(), None);
    assert_eq!(rpc.wait().unwrap(), CallResult::Success(Document::Null));
}

#[test]
fn responses_for_unknown_contexts_are_dropped() {
    let (ft_tx, mut ft_rx) = channel::<FunctionThreadCommand>();
    let mut handler = Handler::new(ft_tx);
    handler.route_inbound(Message::RpcResponse(Response {
        context: "nobody".to_owned(),
        kind: ResponseKind::Partial(Document::Null),
    }));
    // Nothing reached the dispatcher either.
    match ft_rx.try_recv() {
        TryRecvOutcome::Empty => {}
        _ => panic!("a stale response leaked out of the IO loop"),
    }
}

#[test]
fn after_quit_no_further_writes_happen() {
    let (ft_tx, _ft_rx) = channel::<FunctionThreadCommand>();
    let mut handler = Handler::new(ft_tx);
    let (io_tx, mut io_rx) = channel::<EventLoopThreadCommand>();
    let (ft_tx2, _ft_rx2) = channel::<FunctionThreadCommand>();
    let mut client = Client::new(io_tx, ft_tx2);
    client.shutdown();
    match handler.handle_command(io_rx.recv().unwrap()) {
        IoAction::Quit => {}
        _ => panic!("quit was not acted on"),
    }
    // Whatever still sits in the queue after the drop, none of it is
    // written.
    match handler.handle_command(EventLoopThreadCommand::Send(Message::RpcCancel(
        swiboe::message::Cancel {
            context: "late".to_owned(),
        },
    ))) {
        IoAction::Nothing => {}
        _ => panic!("a write was asked for after quit"),
    }
}

#[test]
fn pending_calls_observe_disconnect_when_the_io_loop_dies() {
    let (ft_tx, _ft_rx) = channel::<FunctionThreadCommand>();
    let mut handler = Handler::new(ft_tx);
    let (io_tx, mut io_rx) = channel::<EventLoopThreadCommand>();
    let mut rpc = RpcClientContext::new(&io_tx, "echo", Document::Null).unwrap();
    handler.handle_command(io_rx.recv().unwrap());
    // The peer goes away: the loop exits and its state is torn down,
    // dropping the response senders it held.
    drop(handler);
    match rpc.wait() {
        Err(swiboe::client::RpcClientContextError::Disconnected) => {}
        other => panic!("a pending call survived the loop: {:?}", other),
    }
}

#[test]
fn unregistered_functions_are_answered_not_handled() {
    let (io_tx, mut io_rx) = channel::<EventLoopThreadCommand>();
    let mut thread = FunctionThread::new(io_tx);
    let outcome = thread.handle_call(Call {
        function: "nobody.home".to_owned(),
        context: "in-1".to_owned(),
        args: Document::Null,
    });
    assert!(outcome.is_none());
    match io_rx.recv().unwrap() {
        EventLoopThreadCommand::Send(Message::RpcResponse(resp)) => {
            assert_eq!(resp.context, "in-1");
            assert_eq!(resp.kind, ResponseKind::Last(CallResult::NotHandled));
        }
        _ => panic!("an unregistered call left the peer waiting"),
    }
}

#[test]
fn cancel_reaches_the_running_call() {
    let (io_tx, _io_rx) = channel::<EventLoopThreadCommand>();
    let mut thread = FunctionThread::new(io_tx);
    thread.register("testclient.test".to_owned());
    let (mut ctx, _args) = thread
        .handle_call(Call {
            function: "testclient.test".to_owned(),
            context: "in-2".to_owned(),
            args: blub_doc(),
        })
        .unwrap();
    assert!(!ctx.cancelled());
    thread.handle_cancel(swiboe::message::Cancel {
        context: "in-2".to_owned(),
    });
    assert!(ctx.cancelled());
}

#[test]
fn echo_round_trip_through_the_whole_core() {
    // One process plays both ends: the outbound call is dispatched back
    // into the same client's registry, the handler echoes its arguments,
    // and the caller gets them back unchanged.
    let (io_tx, mut io_rx) = channel::<EventLoopThreadCommand>();
    let (ft_tx, mut ft_rx) = channel::<FunctionThreadCommand>();
    let mut handler = Handler::new(ft_tx);
    let mut thread = FunctionThread::new(io_tx.duplicate());
    thread.register("echo".to_owned());

    let mut rpc = RpcClientContext::new(&io_tx, "echo", blub_doc()).unwrap();

    // IO loop: the outgoing call becomes a write; the loopback peer
    // reflects it straight back as an inbound call.
    let reflected = match handler.handle_command(io_rx.recv().unwrap()) {
        IoAction::Write(message) => message,
        _ => panic!("the call was not written"),
    };
    handler.route_inbound(reflected);

    // Dispatcher: run the echo handler.
    let (mut ctx, args) = match ft_rx.recv().unwrap() {
        FunctionThreadCommand::Call(call) => thread.handle_call(call).unwrap(),
        _ => panic!("the inbound call never reached the dispatcher"),
    };
    assert_eq!(args, blub_doc());
    ctx.finish(CallResult::Success(args)).unwrap();

    // IO loop again: the terminal goes out and comes straight back.
    let answer = match handler.handle_command(io_rx.recv().unwrap()) {
        IoAction::Write(message) => message,
        _ => panic!("the terminal was not written"),
    };
    handler.route_inbound(answer);

    // The caller sees the identity.
    assert_eq!(rpc.wait_for().unwrap(), blub_doc());
}

#[test]
fn cancellation_travels_from_caller_to_handler() {
    // The caller cancels mid-stream; the cancel crosses the loopback and
    // the handler observes it on its next poll.
    let (io_tx, mut io_rx) = channel::<EventLoopThreadCommand>();
    let (ft_tx, mut ft_rx) = channel::<FunctionThreadCommand>();
    let mut handler = Handler::new(ft_tx);
    let mut thread = FunctionThread::new(io_tx.duplicate());
    thread.register("stream.forever".to_owned());

    let mut rpc = RpcClientContext::new(&io_tx, "stream.forever", Document::Null).unwrap();
    let reflected = match handler.handle_command(io_rx.recv().unwrap()) {
        IoAction::Write(message) => message,
        _ => panic!("the call was not written"),
    };
    handler.route_inbound(reflected);
    let (mut ctx, _args) = match ft_rx.recv().unwrap() {
        FunctionThreadCommand::Call(call) => thread.handle_call(call).unwrap(),
        _ => panic!("the inbound call never reached the dispatcher"),
    };
    assert!(!ctx.cancelled());

    rpc.cancel().unwrap();
    let cancel_msg = match handler.handle_command(io_rx.recv().unwrap()) {
        IoAction::Write(message) => message,
        _ => panic!("the cancel was not written"),
    };
    handler.route_inbound(cancel_msg);
    match ft_rx.recv().unwrap() {
        FunctionThreadCommand::Cancel(cancel) => thread.handle_cancel(cancel),
        _ => panic!("the cancel never reached the dispatcher"),
    }
    assert!(ctx.cancelled());
    assert_eq!(
        ctx.update(Document::Null),
        Err(swiboe::server::RpcError::RpcDone)
    );
}
