//! The list-files plugin's data: the request, the streamed update
//! batches, and the final response, with their document encodings.  The
//! filesystem walk itself is the host's work; the core contributes the
//! registration and the exact shape of what goes over the wire.

use crate::client::{Client, RpcClientContextError};
use crate::message::{DocV, Document};
use vstd::prelude::*;

verus! {

/// One streamed batch of file names.
#[derive(Debug, PartialEq, Eq)]
pub struct ListFilesUpdate {
    pub files: Vec<String>,
}

/// What the caller asks for: the directory to walk.
#[derive(Debug, PartialEq, Eq)]
pub struct ListFilesRequest {
    pub directory: String,
}

/// The terminal payload: the stream itself carried everything.
#[derive(Debug, PartialEq, Eq)]
pub struct ListFilesResponse;

/// The document shape of an update batch: an object with one `files`
/// field holding the names as text.
pub open spec fn update_doc_v(files: Seq<Seq<char>>) -> DocV {
    DocV::Object(
        seq![
            ("files"@, DocV::Array(Seq::new(files.len(), |i: int| DocV::Text(files[i])))),
        ],
    )
}

/// The document shape of a request: an object with one `directory`
/// field holding the path as text.
pub open spec fn request_doc_v(directory: Seq<char>) -> DocV {
    DocV::Object(seq![("directory"@, DocV::Text(directory))])
}

impl ListFilesUpdate {
    /// Builds the wire document for this batch.
    pub fn to_document(self) -> (d: Document)
        ensures
            d@ == update_doc_v(Seq::new(self.files@.len(), |i: int| self.files@[i]@)),
    {
        let ghost filesv = Seq::new(self.files@.len(), |i: int| self.files@[i]@);
        let mut items: Vec<Document> = Vec::new();
        let mut names = self.files;
        let n = names.len();
        let mut i: usize = 0;
        let ghost namesv = names@;
        while i < n
            invariant
                n == namesv.len(),
                names@ == namesv,
                i <= n,
                items@.len() == i,
                forall|j: int| 0 <= j < i ==> items@[j] == Document::Text(namesv[j]),
            decreases n - i,
        {
            let name = names[i].clone();
            items.push(Document::Text(name));
            i = i + 1;
        }
        let arr = Document::Array(items);
        proof {
            crate::message::lemma_array_view(arr);
            assert(arr@->Array_0 =~= Seq::new(filesv.len(), |k: int| DocV::Text(filesv[k])));
        }
        let mut fields: Vec<(String, Document)> = Vec::new();
        fields.push(("files".to_owned(), arr));
        let d = Document::Object(fields);
        proof {
            crate::message::lemma_object_view(d);
            assert(d@->Object_0 =~= seq![
                ("files"@, DocV::Array(Seq::new(filesv.len(), |k: int| DocV::Text(filesv[k])))),
            ]);
        }
        d
    }
}

impl ListFilesRequest {
    /// Builds the wire document for this request.
    pub fn to_document(self) -> (d: Document)
        ensures
            d@ == request_doc_v(self.directory@),
    {
        let ghost dirv = self.directory@;
        let mut fields: Vec<(String, Document)> = Vec::new();
        fields.push(("directory".to_owned(), Document::Text(self.directory)));
        let d = Document::Object(fields);
        proof {
            crate::message::lemma_object_view(d);
            assert(d@->Object_0 =~= seq![("directory"@, DocV::Text(dirv))]);
        }
        d
    }

    /// Reads a request back out of its wire document; anything of another
    /// shape is refused.
    pub fn from_document(d: Document) -> (r: Option<ListFilesRequest>)
        ensures
            r matches Some(req) ==> d@ == request_doc_v(req.directory@),
            d@ matches DocV::Object(fields) ==> ((fields.len() == 1 && fields[0].0 == "directory"@
                && fields[0].1 is Text) ==> r is Some),
    {
        match d {
            Document::Object(mut fields) => {
                proof {
                    crate::message::lemma_object_view(d);
                }
                if fields.len() == 1 {
                    let kv = fields.pop().unwrap();
                    let is_key = crate::message::text_is(&kv.0, "directory");
                    match (is_key, kv.1) {
                        (true, Document::Text(directory)) => {
                            let r = ListFilesRequest { directory };
                            proof {
                                assert(d@->Object_0 =~= seq![("directory"@, DocV::Text(r.directory@))]);
                            }
                            Some(r)
                        },
                        _ => None,
                    }
                } else {
                    None
                }
            },
            _ => None,
        }
    }
}

impl ListFilesResponse {
    /// Builds the wire document for the terminal payload: it carries
    /// nothing.
    pub fn to_document(self) -> (d: Document)
        ensures
            d@ == DocV::Null,
    {
        Document::Null
    }
}

/// The plugin: a client that has registered the `list_files` procedure
/// with its peer.  The walking handler lives with the host.
pub struct Plugin {
    pub client: Client,
}

impl Plugin {
    /// Registers `list_files` with the peer, at the default priority,
    /// and keeps the client: the `core.new_rpc` call goes out first, and
    /// only its successful acknowledgement lets the registration reach
    /// the dispatcher.  A failed registration hands the client back with
    /// the error, the dispatcher having been told nothing.
    pub fn new(client: Client) -> (r: Result<Plugin, (Client, RpcClientContextError)>)
        ensures
            r matches Ok(p) ==> ({
                &&& p.client.event_loop_sender.sent@ == client.event_loop_sender.sent@.push(
                    p.client.event_loop_sender.sent@.last(),
                )
                &&& crate::client::is_new_rpc_call(
                    p.client.event_loop_sender.sent@.last(),
                    u16::MAX,
                    "list_files"@,
                )
                &&& p.client.function_thread_sender.sent@ == client.function_thread_sender.sent@.push(
                    p.client.function_thread_sender.sent@.last(),
                )
                &&& (p.client.function_thread_sender.sent@.last()
                    matches crate::client::FunctionThreadCommand::NewRpc(n, pr) && n@
                    == "list_files"@ && pr == u16::MAX)
            }),
            r matches Err(f) ==> ({
                &&& f.0.function_thread_sender.sent@ == client.function_thread_sender.sent@
                &&& (f.0.event_loop_sender.sent@ == client.event_loop_sender.sent@ || (
                f.0.event_loop_sender.sent@ == client.event_loop_sender.sent@.push(
                    f.0.event_loop_sender.sent@.last(),
                ) && crate::client::is_new_rpc_call(
                    f.0.event_loop_sender.sent@.last(),
                    u16::MAX,
                    "list_files"@,
                )))
            }),
    {
        let mut client = client;
        match client.new_rpc("list_files", u16::MAX) {
            Ok(_) => Ok(Plugin { client }),
            Err(e) => Err((client, e)),
        }
    }
}

} // verus!
