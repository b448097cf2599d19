use free_storage::release::ReleaseStep;
use free_storage::request::{Method, Payload, Request};
use free_storage::upload::{
    AssetCollection, AssetReading, AssetStep, ChunkUpload, CollectStep, ReadOutcome, ReadStep, Upload,
};
use free_storage::{Error, FileId};
use std::io::ErrorKind;

const URL: &str = "https://uploads.github.com/repos/o/r/releases/7/assets";

fn network_error() -> reqwest::Error {
    reqwest::Client::new().get("nowhere").build().unwrap_err()
}

fn upload() -> Upload {
    FileId::upload("re?port!.txt", "o/r".to_string()).unwrap()
}

fn chunks() -> ChunkUpload {
    upload()
        .begin_with_id(URL.to_string(), "id".to_string())
        .unwrap()
}

fn posted(step: ReadStep) -> (ChunkUpload, Request) {
    match step {
        ReadStep::Post { upload, request } => (upload, request),
        other => panic!("{other:?}"),
    }
}

fn bytes(request: &Request) -> &[u8] {
    match &request.payload {
        Payload::Bytes(bytes) => bytes,
        other => panic!("{other:?}"),
    }
}

fn read(upload: ChunkUpload, content: &[u8]) -> (ChunkUpload, Request) {
    let mut buffer = content.to_vec();
    buffer.extend_from_slice(&[0; 16]);
    posted(upload.on_read(buffer, ReadOutcome::Read(content.len())))
}

fn collection(chunks: usize) -> AssetCollection {
    let mut upload = self::chunks();
    for _ in 0..chunks {
        upload = read(upload, b"a").0;
    }
    match upload.on_read(Vec::new(), ReadOutcome::Read(0)) {
        ReadStep::Finished(step) => pending(step),
        other => panic!("{other:?}"),
    }
}

fn pending(step: CollectStep) -> AssetCollection {
    match step {
        CollectStep::Pending(collection) => collection,
        other => panic!("{other:?}"),
    }
}

fn reads_id(step: AssetStep) -> AssetReading {
    match step {
        AssetStep::ReadId(reading) => reading,
        other => panic!("{other:?}"),
    }
}

#[test]
fn repository_must_have_its_form() {
    assert!(matches!(
        FileId::upload("name", "repo".to_string()),
        Err(Error::InvalidRepoOrInvalidToken)
    ));
    assert!(matches!(
        FileId::upload("name", "a/b/c".to_string()),
        Err(Error::InvalidRepoOrInvalidToken)
    ));
    assert!(FileId::upload("name", "a/b".to_string()).is_ok());
}

#[test]
fn files_go_to_the_release_for_files() {
    match upload().find_release() {
        ReleaseStep::Ask { request, .. } => assert_eq!(
            request.url,
            "https://api.github.com/repos/o/r/releases/tags/files"
        ),
        other => panic!("{other:?}"),
    }
}

#[test]
fn first_chunk_carries_the_name() {
    let (upload, request) = read(chunks(), b"hello");
    assert_eq!(upload.chunks(), 1);
    assert_eq!(request.method, Method::Post);
    assert_eq!(request.url, format!("{URL}?name=id-chunk0"));
    assert_eq!(
        request.headers,
        vec![(
            "content-type".to_string(),
            "application/octet-stream".to_string()
        )]
    );
    assert_eq!(bytes(&request), b"report.txt?hello");
}

#[test]
fn other_chunks_are_content_alone() {
    let mut upload = chunks();
    for number in 0..12usize {
        assert_eq!(
            upload.next_query(),
            format!("name=id-chunk{number}")
        );
        let (next, request) = read(upload, b"part");
        assert_eq!(request.url, format!("{URL}?name=id-chunk{number}"));
        if number > 0 {
            assert_eq!(bytes(&request), b"part");
        }
        upload = next;
    }
    assert_eq!(upload.chunks(), 12);
}

#[test]
fn full_buffer_is_posted_whole() {
    let (upload, _) = read(chunks(), b"x");
    let (_, request) = posted(upload.on_read(b"full".to_vec(), ReadOutcome::Read(4)));
    assert_eq!(bytes(&request), b"full");
}

#[test]
fn read_that_would_block_is_tried_again() {
    let outcome = ReadOutcome::Failed {
        error: ErrorKind::WouldBlock.into(),
        would_block: true,
    };
    match chunks().on_read(vec![0; 4], outcome) {
        ReadStep::Wait { upload, seconds } => {
            assert_eq!(seconds, 1);
            assert_eq!(upload.chunks(), 0);
        }
        other => panic!("{other:?}"),
    }
}

#[test]
fn failed_read_ends_the_upload() {
    let outcome = ReadOutcome::Failed {
        error: ErrorKind::PermissionDenied.into(),
        would_block: false,
    };
    match chunks().on_read(vec![0; 4], outcome) {
        ReadStep::Failed(Error::Io(error)) => {
            assert_eq!(error.kind(), ErrorKind::PermissionDenied)
        }
        other => panic!("{other:?}"),
    }
}

#[test]
fn empty_file_has_no_chunks() {
    match chunks().on_read(vec![0; 4], ReadOutcome::Read(0)) {
        ReadStep::Finished(CollectStep::Complete(file_id)) => {
            assert!(file_id.asset_ids().is_empty());
            assert_eq!(file_id.repo(), "o/r");
        }
        other => panic!("{other:?}"),
    }
}

#[test]
fn numbers_are_kept_in_the_order_of_the_chunks() {
    let step = reads_id(collection(3).on_response(Ok(201))).on_id(Ok(30));
    let step = reads_id(pending(step).on_response(Ok(201))).on_id(Ok(10));
    let step = reads_id(pending(step).on_response(Ok(201))).on_id(Ok(20));
    match step {
        CollectStep::Complete(file_id) => {
            assert_eq!(file_id.asset_ids(), &vec![30, 10, 20]);
            assert_eq!(file_id.repo(), "o/r");
        }
        other => panic!("{other:?}"),
    }
}

#[test]
fn first_failed_chunk_ends_the_upload() {
    assert!(matches!(
        collection(2).on_response(Err(network_error())),
        AssetStep::Failed(Error::Reqwest(_))
    ));
    assert!(matches!(
        reads_id(collection(2).on_response(Ok(201))).on_id(Err(network_error())),
        CollectStep::Failed(Error::Reqwest(_))
    ));
}

#[test]
fn token_without_the_right_to_write_ends_the_upload() {
    for status in [401u16, 403, 404] {
        assert!(matches!(
            collection(1).on_response(Ok(status)),
            AssetStep::Failed(Error::InvalidRepoOrInvalidToken)
        ));
        let step = reads_id(collection(2).on_response(Ok(201))).on_id(Ok(1));
        assert!(matches!(
            pending(step).on_response(Ok(status)),
            AssetStep::Failed(Error::InvalidRepoOrInvalidToken)
        ));
    }
    for status in [200u16, 201, 400, 402, 405, 422, 500] {
        reads_id(collection(1).on_response(Ok(status)));
    }
}

#[test]
fn new_uploads_have_names_of_their_own() {
    let first = upload().begin(URL.to_string()).unwrap();
    let second = upload().begin(URL.to_string()).unwrap();
    assert_ne!(first.next_query(), second.next_query());
    let query = first.next_query();
    let id = query
        .strip_prefix("name=")
        .unwrap()
        .strip_suffix("-chunk0")
        .unwrap();
    let parsed = uuid::Uuid::parse_str(id).unwrap();
    assert_eq!(parsed.get_version_num(), 4);
    assert_eq!(parsed.to_string(), id);
    let (_, request) = read(first, b"a");
    assert_eq!(request.url, format!("{URL}?name={id}-chunk0"));
}

#[test]
fn upload_needs_a_url() {
    assert!(upload().begin("nowhere".to_string()).is_none());
    assert!(upload()
        .begin_with_id("nowhere".to_string(), "id".to_string())
        .is_none());
}

#[test]
fn earlier_query_gives_way_to_the_name() {
    let upload = upload()
        .begin_with_id("https://a.example/up?x=1#top".to_string(), "é".to_string())
        .unwrap();
    let (_, request) = read(upload, b"a");
    assert_eq!(
        request.url,
        "https://a.example/up?name=%C3%A9-chunk0#top"
    );
}

#[test]
fn records_hold_what_they_are_made_of() {
    let file_id = FileId::from_raw(vec![3, 1, 2], "o/r".to_string());
    assert_eq!(file_id.asset_ids(), &vec![3, 1, 2]);
    assert_eq!(file_id.repo(), "o/r");
    let copy = file_id.clone();
    assert_eq!(copy.asset_ids(), file_id.asset_ids());
    assert_eq!(copy.repo(), file_id.repo());
}
