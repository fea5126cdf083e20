use swiboe::chan::channel;
use swiboe::client::{
    EventLoopThreadCommand, RpcClientContext, RpcClientContextError, Sender,
};
use swiboe::message::{CallResult, Document, Message, Response, ResponseKind};

fn blub_doc() -> Document {
    Document::Object(vec![(
        "blub".to_owned(),
        Document::Text("blah".to_owned()),
    )])
}

/// Starts a call and hands back the handle together with the response
/// sender that the IO loop would own, and the call's context identifier.
fn start_call(
    function: &str,
    args: Document,
) -> (
    RpcClientContext,
    swiboe::chan::TxChan<Response>,
    String,
) {
    let (tx, mut io_rx) = channel::<EventLoopThreadCommand>();
    let rpc = RpcClientContext::new(&tx, function, args).unwrap();
    match io_rx.recv().unwrap() {
        EventLoopThreadCommand::Call(context, response_tx, message) => {
            match message {
                Message::RpcCall(call) => {
                    assert_eq!(call.function, function);
                    assert_eq!(call.context, context);
                }
                other => panic!("call command carried a non-call message: {:?}", other),
            }
            (rpc, response_tx, context)
        }
        _ => panic!("starting a call did not enqueue a call command"),
    }
}

#[test]
fn streaming_partials_then_final() {
    let (mut rpc, mut response_tx, context) = start_call("stream", Document::Null);
    let batches = [vec!["a"], vec!["b", "c"], vec!["d"]];
    for batch in &batches {
        let doc = Document::Array(
            batch
                .iter()
                .map(|s| Document::Text((*s).to_owned()))
                .collect(),
        );
        response_tx
            .send(Response {
                context: context.clone(),
                kind: ResponseKind::Partial(doc),
            })
            .unwrap();
    }
    response_tx
        .send(Response {
            context: context.clone(),
            kind: ResponseKind::Last(CallResult::Success(Document::Null)),
        })
        .unwrap();

    for batch in &batches {
        let expected = Document::Array(
            batch
                .iter()
                .map(|s| Document::Text((*s).to_owned()))
                .collect(),
        );
        assert_eq!(rpc.recv().unwrap(), Some(expected));
    }
    assert_eq!(rpc.recv().unwrap(), None);
    assert_eq!(rpc.wait().unwrap(), CallResult::Success(Document::Null));
}

#[test]
fn recv_after_terminal_latch_is_none_without_blocking() {
    let (mut rpc, mut response_tx, context) = start_call("quick", Document::Null);
    response_tx
        .send(Response {
            context,
            kind: ResponseKind::Last(CallResult::Success(Document::Int(1))),
        })
        .unwrap();
    assert_eq!(rpc.recv().unwrap(), None);
    // The queue is now empty; a read would block.  The latch answers
    // instead, again and again.
    assert_eq!(rpc.recv().unwrap(), None);
    assert_eq!(rpc.recv().unwrap(), None);
}

#[test]
fn at_most_one_terminal_result_is_observed() {
    let (mut rpc, mut response_tx, context) = start_call("once", Document::Null);
    // A buggy peer repeats the terminal.
    for _ in 0..2 {
        response_tx
            .send(Response {
                context: context.clone(),
                kind: ResponseKind::Last(CallResult::Success(Document::Int(7))),
            })
            .unwrap();
    }
    assert_eq!(rpc.wait().unwrap(), CallResult::Success(Document::Int(7)));
    // The latch was handed out once; the duplicate is never surfaced as
    // a second terminal: recv reports the stream as data, never a result.
    assert_eq!(rpc.recv().unwrap(), None);
}

#[test]
fn cancel_after_latch_is_still_sent_and_latch_stays() {
    let (tx, mut io_rx) = channel::<EventLoopThreadCommand>();
    let mut rpc = RpcClientContext::new(&tx, "slow", Document::Null).unwrap();
    let (context, mut response_tx) = match io_rx.recv().unwrap() {
        EventLoopThreadCommand::Call(context, response_tx, _) => (context, response_tx),
        _ => panic!("starting a call did not enqueue a call command"),
    };
    response_tx
        .send(Response {
            context: context.clone(),
            kind: ResponseKind::Last(CallResult::Success(Document::Null)),
        })
        .unwrap();
    assert_eq!(rpc.recv().unwrap(), None);
    rpc.cancel().unwrap();
    match io_rx.recv().unwrap() {
        EventLoopThreadCommand::Send(Message::RpcCancel(cancel)) => {
            assert_eq!(cancel.context, context);
        }
        _ => panic!("cancel did not enqueue a cancel message"),
    }
    assert_eq!(rpc.wait().unwrap(), CallResult::Success(Document::Null));
}

#[test]
fn disconnect_before_terminal_surfaces_as_disconnected() {
    let (mut rpc, response_tx, _context) = start_call("doomed", Document::Null);
    drop(response_tx);
    match rpc.recv() {
        Err(RpcClientContextError::Disconnected) => {}
        other => panic!("recv on a dead call gave {:?}", other),
    }
    match rpc.wait() {
        Err(RpcClientContextError::Disconnected) => {}
        other => panic!("wait on a dead call gave {:?}", other),
    }
}

#[test]
fn wait_for_surfaces_peer_errors() {
    let (mut rpc, mut response_tx, context) = start_call("failing", Document::Null);
    response_tx
        .send(Response {
            context,
            kind: ResponseKind::Last(CallResult::Failure(blub_doc())),
        })
        .unwrap();
    match rpc.wait_for() {
        Err(RpcClientContextError::InvalidOrUnexpectedReply(CallResult::Failure(doc))) => {
            assert_eq!(doc, blub_doc());
        }
        other => panic!("wait_for on a failing call gave {:?}", other),
    }
}

#[test]
fn sender_supports_calls_but_carries_only_the_io_queue() {
    let (tx, mut io_rx) = channel::<EventLoopThreadCommand>();
    let sender = Sender {
        event_loop_sender: tx,
    };
    let second = sender.duplicate();
    let _rpc = second.call("ping", Document::Null).unwrap();
    match io_rx.recv().unwrap() {
        EventLoopThreadCommand::Call(_, _, Message::RpcCall(call)) => {
            assert_eq!(call.function, "ping");
        }
        _ => panic!("a sender's call did not enqueue a call command"),
    }
}
