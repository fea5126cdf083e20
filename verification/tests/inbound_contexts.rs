use swiboe::chan::channel;
use swiboe::client::{EventLoopThreadCommand, RpcServerContext, RpcServerContextError};
use swiboe::message::{CallResult, Document, Message, ResponseKind};
use swiboe::server::{Command, Context, RpcError};

fn fresh_context(
    name: &str,
) -> (
    Context,
    swiboe::chan::TxChan<Command>,
    swiboe::chan::RxChan<EventLoopThreadCommand>,
) {
    let (cancel_tx, cancel_rx) = channel::<Command>();
    let (io_tx, io_rx) = channel::<EventLoopThreadCommand>();
    let ctx = Context::new(name.to_owned(), cancel_rx, io_tx);
    (ctx, cancel_tx, io_rx)
}

#[test]
fn update_sends_partial_and_finish_sends_last() {
    let (mut ctx, _cancel_tx, mut io_rx) = fresh_context("in-1");
    ctx.update(Document::Int(1)).unwrap();
    ctx.finish(CallResult::Success(Document::Null)).unwrap();
    match io_rx.recv().unwrap() {
        EventLoopThreadCommand::Send(Message::RpcResponse(resp)) => {
            assert_eq!(resp.context, "in-1");
            assert_eq!(resp.kind, ResponseKind::Partial(Document::Int(1)));
        }
        _ => panic!("update did not enqueue a partial response"),
    }
    match io_rx.recv().unwrap() {
        EventLoopThreadCommand::Send(Message::RpcResponse(resp)) => {
            assert_eq!(resp.context, "in-1");
            assert_eq!(
                resp.kind,
                ResponseKind::Last(CallResult::Success(Document::Null))
            );
        }
        _ => panic!("finish did not enqueue a terminal response"),
    }
}

#[test]
fn exactly_one_terminal_leaves_a_finished_call() {
    let (mut ctx, _cancel_tx, mut io_rx) = fresh_context("in-2");
    ctx.finish(CallResult::Success(Document::Null)).unwrap();
    assert_eq!(
        ctx.finish(CallResult::Success(Document::Null)),
        Err(RpcError::RpcDone)
    );
    assert_eq!(ctx.update(Document::Null), Err(RpcError::RpcDone));
    // Exactly one message went out.
    let mut terminals = 0;
    loop {
        match io_rx.try_recv() {
            swiboe::chan::TryRecvOutcome::Got(EventLoopThreadCommand::Send(
                Message::RpcResponse(resp),
            )) => {
                if let ResponseKind::Last(_) = resp.kind {
                    terminals += 1;
                }
            }
            swiboe::chan::TryRecvOutcome::Got(_) => {}
            _ => break,
        }
    }
    assert_eq!(terminals, 1);
}

#[test]
fn cancellation_is_observed_and_update_fails() {
    let (mut ctx, mut cancel_tx, mut io_rx) = fresh_context("in-3");
    ctx.update(Document::Int(1)).unwrap();
    cancel_tx.send(Command::Cancel).unwrap();
    assert!(ctx.cancelled());
    assert_eq!(ctx.update(Document::Int(2)), Err(RpcError::RpcDone));
    assert_eq!(
        ctx.finish(CallResult::Success(Document::Null)),
        Err(RpcError::RpcDone)
    );
    // Only the first partial ever reached the IO queue.
    match io_rx.try_recv() {
        swiboe::chan::TryRecvOutcome::Got(EventLoopThreadCommand::Send(
            Message::RpcResponse(resp),
        )) => {
            assert_eq!(resp.kind, ResponseKind::Partial(Document::Int(1)));
        }
        _ => panic!("the first partial is missing"),
    }
    match io_rx.try_recv() {
        swiboe::chan::TryRecvOutcome::Empty => {}
        _ => panic!("a cancelled call still sent something"),
    }
}

#[test]
fn dispatcher_gone_counts_as_cancelled() {
    let (mut ctx, cancel_tx, _io_rx) = fresh_context("in-4");
    drop(cancel_tx);
    assert!(ctx.cancelled());
}

#[test]
fn abandoning_an_alive_context_is_diagnosed() {
    let (ctx, _cancel_tx, _io_rx) = fresh_context("in-5");
    // The handler returned without finishing and without a cancel: the
    // context still owes a terminal, which the host treats as fatal at
    // destruction.
    assert!(ctx.is_alive());
    let (mut done, _cancel_tx2, _io_rx2) = fresh_context("in-6");
    done.finish(CallResult::Success(Document::Null)).unwrap();
    assert!(!done.is_alive());
}

#[test]
fn server_context_reports_the_state_that_refused() {
    let (cancel_tx, cancel_rx) = channel::<Command>();
    let (io_tx, _io_rx) = channel::<EventLoopThreadCommand>();
    let mut ctx = RpcServerContext::new("in-7".to_owned(), cancel_rx, io_tx);
    ctx.finish(CallResult::Success(Document::Null)).unwrap();
    assert_eq!(
        ctx.update(Document::Null),
        Err(RpcServerContextError::Finished)
    );
    drop(cancel_tx);

    let (cancel_tx2, cancel_rx2) = channel::<Command>();
    let (io_tx2, _io_rx2) = channel::<EventLoopThreadCommand>();
    let mut second = RpcServerContext::new("in-8".to_owned(), cancel_rx2, io_tx2);
    drop(cancel_tx2);
    assert!(second.cancelled());
    assert_eq!(
        second.update(Document::Null),
        Err(RpcServerContextError::Cancelled)
    );
}

#[test]
fn inbound_context_can_start_outbound_calls_while_alive() {
    let (mut ctx, _cancel_tx, mut io_rx) = fresh_context("in-9");
    let rpc = ctx.call("log.debug", Document::Null).unwrap();
    match io_rx.recv().unwrap() {
        EventLoopThreadCommand::Call(context, _, Message::RpcCall(call)) => {
            assert_eq!(call.function, "log.debug");
            assert_eq!(context, call.context);
            assert_eq!(context, rpc.context);
        }
        _ => panic!("the nested call never reached the IO queue"),
    }
    ctx.finish(CallResult::Success(Document::Null)).unwrap();
    match ctx.call("log.debug", Document::Null) {
        Err(RpcError::RpcDone) => {}
        _ => panic!("a finished context could still start calls"),
    }
}
