use free_storage::download::DownloadStep;
use free_storage::request::{Payload, Request};
use free_storage::upload::{AssetStep, CollectStep, ReadOutcome, ReadStep};
use free_storage::FileId;

/// Uploads `content` in reads of at most `size` bytes to a server that gives out the numbers of
/// the assets, then downloads it again.
fn store_and_fetch(name: &str, content: &[u8], size: usize) -> (Vec<u8>, String) {
    let mut upload = FileId::upload(name, "o/r".to_string())
        .unwrap()
        .begin("https://uploads.example/assets".to_string())
        .unwrap();
    let mut requests: Vec<Request> = Vec::new();
    let mut rest = content;
    let mut collecting = loop {
        let mut buffer = vec![0; size];
        let count = rest.len().min(size);
        buffer[..count].copy_from_slice(&rest[..count]);
        rest = &rest[count..];
        match upload.on_read(buffer, ReadOutcome::Read(count)) {
            ReadStep::Post {
                upload: next,
                request,
            } => {
                requests.push(request);
                upload = next;
            }
            ReadStep::Finished(step) => break step,
            other => panic!("{other:?}"),
        }
    };
    let mut number: u32 = 1000;
    let file_id = loop {
        collecting = match collecting {
            CollectStep::Pending(collection) => {
                number += 1;
                match collection.on_response(Ok(201)) {
                    AssetStep::ReadId(reading) => reading.on_id(Ok(number - 1)),
                    other => panic!("{other:?}"),
                }
            }
            CollectStep::Complete(file_id) => break file_id,
            other => panic!("{other:?}"),
        };
    };
    let (asked, mut step) = file_id.get();
    assert_eq!(asked.len(), requests.len());
    for (request, stored) in asked.iter().zip(requests) {
        let id: usize = request.url.rsplit('/').next().unwrap().parse().unwrap();
        assert!(stored.url.ends_with(&format!("-chunk{}", id - 1000)));
        let body = match stored.payload {
            Payload::Bytes(bytes) => bytes,
            other => panic!("{other:?}"),
        };
        step = match step {
            DownloadStep::AwaitResponse(download) => match download.on_response(Ok(200)) {
                DownloadStep::ReadBody(download) => download.on_body(Ok(body)),
                other => panic!("{other:?}"),
            },
            other => panic!("{other:?}"),
        };
    }
    match step {
        DownloadStep::Complete { content, file_name } => (content, file_name),
        other => panic!("{other:?}"),
    }
}

#[test]
fn file_comes_back_whole() {
    let content: Vec<u8> = (0..=255).cycle().take(1000).collect();
    for size in [1usize, 7, 999, 1000, 4096] {
        assert_eq!(
            store_and_fetch("data.bin", &content, size),
            (content.clone(), "data.bin".to_string())
        );
    }
}

#[test]
fn name_comes_back_without_its_marks() {
    assert_eq!(
        store_and_fetch("wh?at!.txt", b"yes?", 3),
        (b"yes?".to_vec(), "what.txt".to_string())
    );
    assert_eq!(
        store_and_fetch("?", b"x", 3),
        (b"x".to_vec(), String::new())
    );
}

#[test]
fn name_in_any_script_comes_back() {
    for size in [1usize, 2, 100] {
        assert_eq!(
            store_and_fetch("é?.txt", b"abc", size),
            (b"abc".to_vec(), "é.txt".to_string())
        );
        assert_eq!(
            store_and_fetch("日本語 🦀", "内容".as_bytes(), size),
            ("内容".as_bytes().to_vec(), "日本語 🦀".to_string())
        );
    }
}

#[test]
fn empty_file_comes_back_without_a_name() {
    assert_eq!(
        store_and_fetch("name", b"", 3),
        (Vec::new(), String::new())
    );
}
