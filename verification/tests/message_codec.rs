use swiboe::message::{
    decode_kind, decode_message, decode_result, encode_kind, encode_message, encode_result, Call,
    CallResult, Cancel, Document, Message, Response, ResponseKind,
};

fn sample_doc() -> Document {
    Document::Object(vec![
        ("blub".to_owned(), Document::Text("blah".to_owned())),
        ("count".to_owned(), Document::Int(3)),
        (
            "items".to_owned(),
            Document::Array(vec![Document::Bool(true), Document::Null]),
        ),
    ])
}

#[test]
fn call_message_round_trips() {
    let msg = Message::RpcCall(Call {
        function: "core.broadcast".to_owned(),
        context: "ctx-1".to_owned(),
        args: sample_doc(),
    });
    let expected = Message::RpcCall(Call {
        function: "core.broadcast".to_owned(),
        context: "ctx-1".to_owned(),
        args: sample_doc(),
    });
    let decoded = decode_message(encode_message(msg));
    assert_eq!(decoded, Some(expected));
}

#[test]
fn partial_response_round_trips() {
    let msg = Message::RpcResponse(Response {
        context: "ctx-2".to_owned(),
        kind: ResponseKind::Partial(sample_doc()),
    });
    let expected = Message::RpcResponse(Response {
        context: "ctx-2".to_owned(),
        kind: ResponseKind::Partial(sample_doc()),
    });
    assert_eq!(decode_message(encode_message(msg)), Some(expected));
}

#[test]
fn last_success_response_round_trips() {
    let msg = Message::RpcResponse(Response {
        context: "ctx-3".to_owned(),
        kind: ResponseKind::Last(CallResult::Success(Document::Null)),
    });
    let expected = Message::RpcResponse(Response {
        context: "ctx-3".to_owned(),
        kind: ResponseKind::Last(CallResult::Success(Document::Null)),
    });
    assert_eq!(decode_message(encode_message(msg)), Some(expected));
}

#[test]
fn last_failure_response_round_trips() {
    let msg = Message::RpcResponse(Response {
        context: "ctx-4".to_owned(),
        kind: ResponseKind::Last(CallResult::Failure(sample_doc())),
    });
    let expected = Message::RpcResponse(Response {
        context: "ctx-4".to_owned(),
        kind: ResponseKind::Last(CallResult::Failure(sample_doc())),
    });
    assert_eq!(decode_message(encode_message(msg)), Some(expected));
}

#[test]
fn last_not_handled_response_round_trips() {
    let msg = Message::RpcResponse(Response {
        context: "ctx-5".to_owned(),
        kind: ResponseKind::Last(CallResult::NotHandled),
    });
    let expected = Message::RpcResponse(Response {
        context: "ctx-5".to_owned(),
        kind: ResponseKind::Last(CallResult::NotHandled),
    });
    assert_eq!(decode_message(encode_message(msg)), Some(expected));
}

#[test]
fn cancel_message_round_trips() {
    let msg = Message::RpcCancel(Cancel {
        context: "ctx-6".to_owned(),
    });
    let expected = Message::RpcCancel(Cancel {
        context: "ctx-6".to_owned(),
    });
    assert_eq!(decode_message(encode_message(msg)), Some(expected));
}

#[test]
fn result_and_kind_round_trip() {
    let r = CallResult::Success(Document::Int(7));
    assert_eq!(
        decode_result(encode_result(r)),
        Some(CallResult::Success(Document::Int(7)))
    );
    let k = ResponseKind::Partial(Document::Text("x".to_owned()));
    assert_eq!(
        decode_kind(encode_kind(k)),
        Some(ResponseKind::Partial(Document::Text("x".to_owned())))
    );
}

#[test]
fn wire_tags_are_the_stable_strings() {
    let msg = Message::RpcCall(Call {
        function: "f".to_owned(),
        context: "c".to_owned(),
        args: Document::Null,
    });
    match encode_message(msg) {
        Document::Object(fields) => {
            assert_eq!(fields[0].0, "type");
            assert_eq!(fields[0].1, Document::Text("RpcCall".to_owned()));
            assert_eq!(fields[1].0, "function");
            assert_eq!(fields[2].0, "context");
            assert_eq!(fields[3].0, "args");
        }
        other => panic!("call did not encode to an object: {:?}", other),
    }
}

#[test]
fn alien_documents_do_not_decode() {
    assert_eq!(decode_message(Document::Null), None);
    assert_eq!(decode_message(Document::Int(5)), None);
    assert_eq!(
        decode_message(Document::Object(vec![(
            "type".to_owned(),
            Document::Text("Unknown".to_owned())
        ),])),
        None
    );
    assert_eq!(decode_result(Document::Text("Something".to_owned())), None);
    assert_eq!(decode_kind(Document::Array(vec![])), None);
}
