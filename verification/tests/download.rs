use free_storage::download::{BodyDownload, Download, DownloadStep};
use free_storage::request::{Method, Payload};
use free_storage::{Error, FileId};

fn network_error() -> reqwest::Error {
    reqwest::Client::new().get("nowhere").build().unwrap_err()
}

fn file_id() -> FileId {
    FileId::from_raw(vec![11, 4_294_967_295], "o/r".to_string())
}

fn waits(step: DownloadStep) -> Download {
    match step {
        DownloadStep::AwaitResponse(download) => download,
        other => panic!("{other:?}"),
    }
}

fn reads(step: DownloadStep) -> BodyDownload {
    match step {
        DownloadStep::ReadBody(download) => download,
        other => panic!("{other:?}"),
    }
}

#[test]
fn every_chunk_is_asked_for() {
    let (requests, step) = file_id().get();
    waits(step);
    let urls: Vec<&str> = requests.iter().map(|request| request.url.as_str()).collect();
    assert_eq!(
        urls,
        vec![
            "https://api.github.com/repos/o/r/releases/assets/11",
            "https://api.github.com/repos/o/r/releases/assets/4294967295",
        ]
    );
    for request in &requests {
        assert_eq!(request.method, Method::Get);
        assert_eq!(
            request.headers,
            vec![(
                "accept".to_string(),
                "application/octet-stream".to_string()
            )]
        );
        assert!(matches!(request.payload, Payload::Empty));
    }
}

#[test]
fn chunks_are_joined_and_unpacked() {
    let (_, step) = file_id().get();
    let step = reads(waits(step).on_response(Ok(200))).on_body(Ok(b"a.txt?hel".to_vec()));
    let step = reads(waits(step).on_response(Ok(200))).on_body(Ok(b"lo?".to_vec()));
    match step {
        DownloadStep::Complete { content, file_name } => {
            assert_eq!(content, b"hello?".to_vec());
            assert_eq!(file_name, "a.txt");
        }
        other => panic!("{other:?}"),
    }
}

#[test]
fn denied_chunk_means_no_access() {
    for status in [401u16, 403, 404] {
        let (_, step) = file_id().get();
        assert!(matches!(
            waits(step).on_response(Ok(status)),
            DownloadStep::Failed(Error::Unauthorized)
        ));
        let (_, step) = file_id().get();
        let step = reads(waits(step).on_response(Ok(200))).on_body(Ok(b"a?".to_vec()));
        assert!(matches!(
            waits(step).on_response(Ok(status)),
            DownloadStep::Failed(Error::Unauthorized)
        ));
    }
}

#[test]
fn failed_request_is_a_network_error() {
    let (_, step) = file_id().get();
    assert!(matches!(
        waits(step).on_response(Err(network_error())),
        DownloadStep::Failed(Error::Reqwest(_))
    ));
}

#[test]
fn unreadable_body_is_a_network_error() {
    let (_, step) = file_id().get();
    assert!(matches!(
        reads(waits(step).on_response(Ok(200))).on_body(Err(network_error())),
        DownloadStep::Failed(Error::Reqwest(_))
    ));
}

#[test]
fn other_statuses_do_not_end_the_download() {
    for status in [200u16, 302, 400, 402, 405, 500] {
        let (_, step) = file_id().get();
        reads(waits(step).on_response(Ok(status)));
    }
}

#[test]
fn name_and_content_of_any_file_are_downloaded() {
    let (_, step) = FileId::from_raw(vec![1], "o/r".to_string()).get();
    let body = vec![0xC3, 0xA9, b'?', b'a', b'b', b'c'];
    match reads(waits(step).on_response(Ok(200))).on_body(Ok(body)) {
        DownloadStep::Complete { content, file_name } => {
            assert_eq!(content, b"abc".to_vec());
            assert_eq!(file_name, "\u{e9}");
        }
        other => panic!("{other:?}"),
    }
}

#[test]
fn record_without_chunks_is_an_empty_file() {
    let (requests, step) = FileId::from_raw(Vec::new(), "o/r".to_string()).get();
    assert!(requests.is_empty());
    match step {
        DownloadStep::Complete { content, file_name } => {
            assert!(content.is_empty());
            assert_eq!(file_name, "");
        }
        other => panic!("{other:?}"),
    }
}
