use swiboe::list_files::{ListFilesRequest, ListFilesResponse, ListFilesUpdate};
use swiboe::message::Document;

#[test]
fn update_batches_encode_as_a_files_object() {
    let update = ListFilesUpdate {
        files: vec!["a/b.txt".to_owned(), "c".to_owned()],
    };
    let expected = Document::Object(vec![(
        "files".to_owned(),
        Document::Array(vec![
            Document::Text("a/b.txt".to_owned()),
            Document::Text("c".to_owned()),
        ]),
    )]);
    assert_eq!(update.to_document(), expected);
}

#[test]
fn requests_round_trip_through_their_document() {
    let request = ListFilesRequest {
        directory: "/tmp/somewhere".to_owned(),
    };
    let doc = request.to_document();
    let back = ListFilesRequest::from_document(doc).unwrap();
    assert_eq!(back.directory, "/tmp/somewhere");
}

#[test]
fn alien_documents_are_not_requests() {
    assert!(ListFilesRequest::from_document(Document::Null).is_none());
    assert!(ListFilesRequest::from_document(Document::Object(vec![(
        "something".to_owned(),
        Document::Text("else".to_owned())
    )]))
    .is_none());
    assert!(ListFilesRequest::from_document(Document::Object(vec![(
        "directory".to_owned(),
        Document::Int(3)
    )]))
    .is_none());
}

#[test]
fn the_response_carries_nothing() {
    assert_eq!(ListFilesResponse.to_document(), Document::Null);
}
