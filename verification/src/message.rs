//! The on-wire data model: dynamic documents, calls, responses,
//! cancellations, and the tagged `Message` union, together with its
//! encoding into a plain document and the proof that decoding inverts
//! encoding.

use vstd::prelude::*;

verus! {

broadcast use vstd::std_specs::vec::axiom_vec_decreases_to_view, vstd::seq::axiom_seq_index_decreases;

/// A dynamically-typed structured value, the payload format of the
/// protocol.  The core never inspects payload documents; they are carried
/// through verbatim.  Numbers are modeled as signed 64-bit integers.
#[derive(Debug, PartialEq, Eq)]
pub enum Document {
    Null,
    Bool(bool),
    Int(i64),
    Text(String),
    Array(Vec<Document>),
    Object(Vec<(String, Document)>),
}

/// The mathematical shape of a `Document`.
pub enum DocV {
    Null,
    Bool(bool),
    Int(int),
    Text(Seq<char>),
    Array(Seq<DocV>),
    Object(Seq<(Seq<char>, DocV)>),
}

/// The shape of a concrete document.
pub open spec fn doc_view(d: Document) -> DocV
    decreases d,
{
    match d {
        Document::Null => DocV::Null,
        Document::Bool(b) => DocV::Bool(b),
        Document::Int(i) => DocV::Int(i as int),
        Document::Text(s) => DocV::Text(s@),
        Document::Array(items) => DocV::Array(
            Seq::new(
                items@.len(),
                |i: int|
                    if 0 <= i < items@.len() {
                        doc_view(items@[i])
                    } else {
                        DocV::Null
                    },
            ),
        ),
        Document::Object(fields) => DocV::Object(
            Seq::new(
                fields@.len(),
                |i: int|
                    if 0 <= i < fields@.len() {
                        (fields@[i].0@, doc_view(fields@[i].1))
                    } else {
                        (Seq::empty(), DocV::Null)
                    },
            ),
        ),
    }
}

impl View for Document {
    type V = DocV;

    open spec fn view(&self) -> DocV {
        doc_view(*self)
    }
}

/// How the view of an object document relates to the concrete field
/// vector: same length, and fields viewed pointwise.
pub proof fn lemma_object_view(d: Document)
    requires
        d is Object,
    ensures
        d@ is Object,
        d@->Object_0.len() == d->Object_0@.len(),
        forall|i: int|
            0 <= i < d->Object_0@.len() ==> #[trigger] d@->Object_0[i] == (
            d->Object_0@[i].0@,
            d->Object_0@[i].1@,
            ),
{
}

/// How the view of an array document relates to the concrete item
/// vector: same length, and items viewed pointwise.
pub proof fn lemma_array_view(d: Document)
    requires
        d is Array,
    ensures
        d@ is Array,
        d@->Array_0.len() == d->Array_0@.len(),
        forall|i: int|
            0 <= i < d->Array_0@.len() ==> #[trigger] d@->Array_0[i] == d->Array_0@[i]@,
{
}

/// The terminal outcome of a call, as reported by the side that served it.
#[derive(Debug, PartialEq, Eq)]
pub enum CallResult {
    Success(Document),
    Failure(Document),
    NotHandled,
}

/// The mathematical shape of a `CallResult`.
pub enum CallResultV {
    Success(DocV),
    Failure(DocV),
    NotHandled,
}

impl View for CallResult {
    type V = CallResultV;

    open spec fn view(&self) -> CallResultV {
        match self {
            CallResult::Success(d) => CallResultV::Success(d@),
            CallResult::Failure(d) => CallResultV::Failure(d@),
            CallResult::NotHandled => CallResultV::NotHandled,
        }
    }
}

/// A request to run the named function, correlated by a caller-chosen
/// context identifier.
#[derive(Debug, PartialEq, Eq)]
pub struct Call {
    pub function: String,
    pub context: String,
    pub args: Document,
}

/// The mathematical shape of a `Call`.
pub struct CallV {
    pub function: Seq<char>,
    pub context: Seq<char>,
    pub args: DocV,
}

impl View for Call {
    type V = CallV;

    open spec fn view(&self) -> CallV {
        CallV { function: self.function@, context: self.context@, args: self.args@ }
    }
}

/// One frame of a call's answer: any number of partials, then one last.
#[derive(Debug, PartialEq, Eq)]
pub enum ResponseKind {
    Partial(Document),
    Last(CallResult),
}

/// The mathematical shape of a `ResponseKind`.
pub enum ResponseKindV {
    Partial(DocV),
    Last(CallResultV),
}

impl View for ResponseKind {
    type V = ResponseKindV;

    open spec fn view(&self) -> ResponseKindV {
        match self {
            ResponseKind::Partial(d) => ResponseKindV::Partial(d@),
            ResponseKind::Last(r) => ResponseKindV::Last(r@),
        }
    }
}

/// A response frame addressed to the call with the given context.
#[derive(Debug, PartialEq, Eq)]
pub struct Response {
    pub context: String,
    pub kind: ResponseKind,
}

/// The mathematical shape of a `Response`.
pub struct ResponseV {
    pub context: Seq<char>,
    pub kind: ResponseKindV,
}

impl View for Response {
    type V = ResponseV;

    open spec fn view(&self) -> ResponseV {
        ResponseV { context: self.context@, kind: self.kind@ }
    }
}

/// A request to cancel the call with the given context.
#[derive(Debug, PartialEq, Eq)]
pub struct Cancel {
    pub context: String,
}

/// The mathematical shape of a `Cancel`.
pub struct CancelV {
    pub context: Seq<char>,
}

impl View for Cancel {
    type V = CancelV;

    open spec fn view(&self) -> CancelV {
        CancelV { context: self.context@ }
    }
}

/// Everything that travels over the socket, in either direction.
#[derive(Debug, PartialEq, Eq)]
pub enum Message {
    RpcCall(Call),
    RpcResponse(Response),
    RpcCancel(Cancel),
}

/// The mathematical shape of a `Message`.
pub enum MessageV {
    RpcCall(CallV),
    RpcResponse(ResponseV),
    RpcCancel(CancelV),
}

impl View for Message {
    type V = MessageV;

    open spec fn view(&self) -> MessageV {
        match self {
            Message::RpcCall(c) => MessageV::RpcCall(c@),
            Message::RpcResponse(r) => MessageV::RpcResponse(r@),
            Message::RpcCancel(c) => MessageV::RpcCancel(c@),
        }
    }
}

/// The document encoding of a terminal outcome: `Ok` and `Err` become
/// one-field objects, `NotHandled` a bare tag string.
pub open spec fn encode_result_v(r: CallResultV) -> DocV {
    match r {
        CallResultV::Success(d) => DocV::Object(seq![("Ok"@, d)]),
        CallResultV::Failure(d) => DocV::Object(seq![("Err"@, d)]),
        CallResultV::NotHandled => DocV::Text("NotHandled"@),
    }
}

/// The document encoding of a response kind: a one-field object tagged
/// `Partial` or `Last`.
pub open spec fn encode_kind_v(k: ResponseKindV) -> DocV {
    match k {
        ResponseKindV::Partial(d) => DocV::Object(seq![("Partial"@, d)]),
        ResponseKindV::Last(r) => DocV::Object(seq![("Last"@, encode_result_v(r))]),
    }
}

/// The document encoding of a whole message: an object whose `type` field
/// holds the variant tag, followed by the variant's fields in a fixed
/// order.
pub open spec fn encode_message_v(m: MessageV) -> DocV {
    match m {
        MessageV::RpcCall(c) => DocV::Object(
            seq![
                ("type"@, DocV::Text("RpcCall"@)),
                ("function"@, DocV::Text(c.function)),
                ("context"@, DocV::Text(c.context)),
                ("args"@, c.args),
            ],
        ),
        MessageV::RpcResponse(r) => DocV::Object(
            seq![
                ("type"@, DocV::Text("RpcResponse"@)),
                ("context"@, DocV::Text(r.context)),
                ("kind"@, encode_kind_v(r.kind)),
            ],
        ),
        MessageV::RpcCancel(c) => DocV::Object(
            seq![("type"@, DocV::Text("RpcCancel"@)), ("context"@, DocV::Text(c.context))],
        ),
    }
}

/// The partial inverse of `encode_result_v`.
pub open spec fn decode_result_v(d: DocV) -> Option<CallResultV> {
    match d {
        DocV::Text(t) => if t == "NotHandled"@ {
            Some(CallResultV::NotHandled)
        } else {
            None
        },
        DocV::Object(fields) => if fields.len() == 1 {
            if fields[0].0 == "Ok"@ {
                Some(CallResultV::Success(fields[0].1))
            } else if fields[0].0 == "Err"@ {
                Some(CallResultV::Failure(fields[0].1))
            } else {
                None
            }
        } else {
            None
        },
        _ => None,
    }
}

/// The partial inverse of `encode_kind_v`.
pub open spec fn decode_kind_v(d: DocV) -> Option<ResponseKindV> {
    match d {
        DocV::Object(fields) => if fields.len() == 1 {
            if fields[0].0 == "Partial"@ {
                Some(ResponseKindV::Partial(fields[0].1))
            } else if fields[0].0 == "Last"@ {
                match decode_result_v(fields[0].1) {
                    Some(r) => Some(ResponseKindV::Last(r)),
                    None => None,
                }
            } else {
                None
            }
        } else {
            None
        },
        _ => None,
    }
}

/// The partial inverse of `encode_message_v`.
pub open spec fn decode_message_v(d: DocV) -> Option<MessageV> {
    match d {
        DocV::Object(fields) => if fields.len() == 4 && fields[0].0 == "type"@ && fields[0].1
            == DocV::Text("RpcCall"@) && fields[1].0 == "function"@ && fields[1].1 is Text
            && fields[2].0 == "context"@ && fields[2].1 is Text && fields[3].0 == "args"@ {
            Some(
                MessageV::RpcCall(
                    CallV {
                        function: fields[1].1->Text_0,
                        context: fields[2].1->Text_0,
                        args: fields[3].1,
                    },
                ),
            )
        } else if fields.len() == 3 && fields[0].0 == "type"@ && fields[0].1 == DocV::Text(
            "RpcResponse"@,
        ) && fields[1].0 == "context"@ && fields[1].1 is Text && fields[2].0 == "kind"@ {
            match decode_kind_v(fields[2].1) {
                Some(k) => Some(
                    MessageV::RpcResponse(ResponseV { context: fields[1].1->Text_0, kind: k }),
                ),
                None => None,
            }
        } else if fields.len() == 2 && fields[0].0 == "type"@ && fields[0].1 == DocV::Text(
            "RpcCancel"@,
        ) && fields[1].0 == "context"@ && fields[1].1 is Text {
            Some(MessageV::RpcCancel(CancelV { context: fields[1].1->Text_0 }))
        } else {
            None
        },
        _ => None,
    }
}

/// Decoding a document that came out of the encoder gives back exactly
/// the terminal outcome that went in.
pub proof fn lemma_result_round_trip(r: CallResultV)
    ensures
        decode_result_v(encode_result_v(r)) == Some(r),
{
    reveal_strlit("Ok");
    reveal_strlit("Err");
    reveal_strlit("NotHandled");
    assert("Ok"@.len() == 2);
    assert("Err"@.len() == 3);
}

/// Decoding a document that came out of the encoder gives back exactly
/// the response kind that went in.
pub proof fn lemma_kind_round_trip(k: ResponseKindV)
    ensures
        decode_kind_v(encode_kind_v(k)) == Some(k),
{
    reveal_strlit("Partial");
    reveal_strlit("Last");
    assert("Partial"@.len() == 7);
    assert("Last"@.len() == 4);
    match k {
        ResponseKindV::Partial(_) => {
        },
        ResponseKindV::Last(r) => {
            lemma_result_round_trip(r);
        },
    }
}

/// Serialize-then-deserialize is the identity on every message variant.
pub proof fn lemma_message_round_trip(m: MessageV)
    ensures
        decode_message_v(encode_message_v(m)) == Some(m),
{
    reveal_strlit("type");
    reveal_strlit("RpcCall");
    reveal_strlit("RpcResponse");
    reveal_strlit("RpcCancel");
    reveal_strlit("function");
    reveal_strlit("context");
    reveal_strlit("args");
    reveal_strlit("kind");
    match m {
        MessageV::RpcCall(_) => {
        },
        MessageV::RpcResponse(r) => {
            lemma_kind_round_trip(r.kind);
        },
        MessageV::RpcCancel(_) => {
        },
    }
}

/// True exactly when the string equals the literal.
pub fn text_is(s: &String, lit: &str) -> (r: bool)
    ensures
        r == (s@ == lit@),
{
    let owned: String = lit.to_owned();
    *s == owned
}

/// Builds the document encoding of a terminal outcome.
pub fn encode_result(r: CallResult) -> (d: Document)
    ensures
        d@ == encode_result_v(r@),
{
    match r {
        CallResult::Success(doc) => {
            let ghost dv = doc@;
            let mut fields: Vec<(String, Document)> = Vec::new();
            fields.push(("Ok".to_owned(), doc));
            let d = Document::Object(fields);
            proof {
                assert(d@->Object_0 =~= seq![("Ok"@, dv)]);
            }
            d
        },
        CallResult::Failure(doc) => {
            let ghost dv = doc@;
            let mut fields: Vec<(String, Document)> = Vec::new();
            fields.push(("Err".to_owned(), doc));
            let d = Document::Object(fields);
            proof {
                assert(d@->Object_0 =~= seq![("Err"@, dv)]);
            }
            d
        },
        CallResult::NotHandled => Document::Text("NotHandled".to_owned()),
    }
}

/// Builds the document encoding of a response kind.
pub fn encode_kind(k: ResponseKind) -> (d: Document)
    ensures
        d@ == encode_kind_v(k@),
{
    match k {
        ResponseKind::Partial(doc) => {
            let ghost dv = doc@;
            let mut fields: Vec<(String, Document)> = Vec::new();
            fields.push(("Partial".to_owned(), doc));
            let d = Document::Object(fields);
            proof {
                assert(d@->Object_0 =~= seq![("Partial"@, dv)]);
            }
            d
        },
        ResponseKind::Last(r) => {
            let ghost rv = r@;
            let enc = encode_result(r);
            let mut fields: Vec<(String, Document)> = Vec::new();
            fields.push(("Last".to_owned(), enc));
            let d = Document::Object(fields);
            proof {
                assert(d@->Object_0 =~= seq![("Last"@, encode_result_v(rv))]);
            }
            d
        },
    }
}

/// Builds the document encoding of a whole message.
pub fn encode_message(m: Message) -> (d: Document)
    ensures
        d@ == encode_message_v(m@),
{
    match m {
        Message::RpcCall(c) => {
            let ghost cv = c@;
            let mut fields: Vec<(String, Document)> = Vec::new();
            fields.push(("type".to_owned(), Document::Text("RpcCall".to_owned())));
            fields.push(("function".to_owned(), Document::Text(c.function)));
            fields.push(("context".to_owned(), Document::Text(c.context)));
            fields.push(("args".to_owned(), c.args));
            let d = Document::Object(fields);
            proof {
                lemma_object_view(d);
                assert(fields@.len() == 4);
                assert(d@->Object_0 =~= seq![
                    ("type"@, DocV::Text("RpcCall"@)),
                    ("function"@, DocV::Text(cv.function)),
                    ("context"@, DocV::Text(cv.context)),
                    ("args"@, cv.args),
                ]);
            }
            d
        },
        Message::RpcResponse(r) => {
            let ghost rv = r@;
            let enc = encode_kind(r.kind);
            let mut fields: Vec<(String, Document)> = Vec::new();
            fields.push(("type".to_owned(), Document::Text("RpcResponse".to_owned())));
            fields.push(("context".to_owned(), Document::Text(r.context)));
            fields.push(("kind".to_owned(), enc));
            let d = Document::Object(fields);
            proof {
                lemma_object_view(d);
                assert(fields@.len() == 3);
                assert(d@->Object_0 =~= seq![
                    ("type"@, DocV::Text("RpcResponse"@)),
                    ("context"@, DocV::Text(rv.context)),
                    ("kind"@, encode_kind_v(rv.kind)),
                ]);
            }
            d
        },
        Message::RpcCancel(c) => {
            let ghost cv = c@;
            let mut fields: Vec<(String, Document)> = Vec::new();
            fields.push(("type".to_owned(), Document::Text("RpcCancel".to_owned())));
            fields.push(("context".to_owned(), Document::Text(c.context)));
            let d = Document::Object(fields);
            proof {
                lemma_object_view(d);
                assert(fields@.len() == 2);
                assert(d@->Object_0 =~= seq![
                    ("type"@, DocV::Text("RpcCancel"@)),
                    ("context"@, DocV::Text(cv.context)),
                ]);
            }
            d
        },
    }
}

/// Reads a terminal outcome back out of its document encoding.
pub fn decode_result(d: Document) -> (r: Option<CallResult>)
    ensures
        decode_result_v(d@) is Some ==> r is Some && r.unwrap()@ == decode_result_v(d@).unwrap(),
        decode_result_v(d@) is None ==> r is None,
{
    match d {
        Document::Text(t) => {
            if text_is(&t, "NotHandled") {
                Some(CallResult::NotHandled)
            } else {
                None
            }
        },
        Document::Object(mut fields) => {
            proof {
                lemma_object_view(d);
            }
            if fields.len() == 1 {
                let kv = fields.pop().unwrap();
                if text_is(&kv.0, "Ok") {
                    Some(CallResult::Success(kv.1))
                } else if text_is(&kv.0, "Err") {
                    Some(CallResult::Failure(kv.1))
                } else {
                    None
                }
            } else {
                None
            }
        },
        _ => None,
    }
}

/// Reads a response kind back out of its document encoding.
pub fn decode_kind(d: Document) -> (r: Option<ResponseKind>)
    ensures
        decode_kind_v(d@) is Some ==> r is Some && r.unwrap()@ == decode_kind_v(d@).unwrap(),
        decode_kind_v(d@) is None ==> r is None,
{
    match d {
        Document::Object(mut fields) => {
            proof {
                lemma_object_view(d);
            }
            if fields.len() == 1 {
                let kv = fields.pop().unwrap();
                if text_is(&kv.0, "Partial") {
                    Some(ResponseKind::Partial(kv.1))
                } else if text_is(&kv.0, "Last") {
                    match decode_result(kv.1) {
                        Some(r) => Some(ResponseKind::Last(r)),
                        None => None,
                    }
                } else {
                    None
                }
            } else {
                None
            }
        },
        _ => None,
    }
}

/// Reads a whole message back out of its document encoding.
pub fn decode_message(d: Document) -> (r: Option<Message>)
    ensures
        decode_message_v(d@) is Some ==> r is Some && r.unwrap()@ == decode_message_v(d@).unwrap(),
        decode_message_v(d@) is None ==> r is None,
{
    match d {
        Document::Object(mut fields) => {
            proof {
                lemma_object_view(d);
            }
            if fields.len() == 4 {
                let args_kv = fields.pop().unwrap();
                let context_kv = fields.pop().unwrap();
                let function_kv = fields.pop().unwrap();
                let type_kv = fields.pop().unwrap();
                if !text_is(&type_kv.0, "type") || !text_is(&function_kv.0, "function")
                    || !text_is(&context_kv.0, "context") || !text_is(&args_kv.0, "args") {
                    return None;
                }
                let tag_ok = match &type_kv.1 {
                    Document::Text(t) => text_is(t, "RpcCall"),
                    _ => false,
                };
                if !tag_ok {
                    return None;
                }
                match (function_kv.1, context_kv.1) {
                    (Document::Text(function), Document::Text(context)) => {
                        Some(
                            Message::RpcCall(
                                Call { function, context, args: args_kv.1 },
                            ),
                        )
                    },
                    _ => None,
                }
            } else if fields.len() == 3 {
                let kind_kv = fields.pop().unwrap();
                let context_kv = fields.pop().unwrap();
                let type_kv = fields.pop().unwrap();
                if !text_is(&type_kv.0, "type") || !text_is(&context_kv.0, "context") || !text_is(
                    &kind_kv.0,
                    "kind",
                ) {
                    return None;
                }
                let tag_ok = match &type_kv.1 {
                    Document::Text(t) => text_is(t, "RpcResponse"),
                    _ => false,
                };
                if !tag_ok {
                    return None;
                }
                match context_kv.1 {
                    Document::Text(context) => {
                        match decode_kind(kind_kv.1) {
                            Some(kind) => Some(Message::RpcResponse(Response { context, kind })),
                            None => None,
                        }
                    },
                    _ => None,
                }
            } else if fields.len() == 2 {
                let context_kv = fields.pop().unwrap();
                let type_kv = fields.pop().unwrap();
                if !text_is(&type_kv.0, "type") || !text_is(&context_kv.0, "context") {
                    return None;
                }
                let tag_ok = match &type_kv.1 {
                    Document::Text(t) => text_is(t, "RpcCancel"),
                    _ => false,
                };
                if !tag_ok {
                    return None;
                }
                match context_kv.1 {
                    Document::Text(context) => Some(Message::RpcCancel(Cancel { context })),
                    _ => None,
                }
            } else {
                None
            }
        },
        _ => None,
    }
}

} // verus!
