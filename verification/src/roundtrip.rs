//! What an upload and the download after it have to do with each other.

use reqwest::Error as NetworkError;
use vstd::prelude::*;
use vstd::utf8::*;
use crate::download;
use crate::download::{ChunkAnswer, DownloadStepView};
use crate::file_id::FileIdView;
use crate::framing;
use crate::request;
use crate::request::PayloadView;
use crate::upload;
use crate::upload::{
    AssetAnswer, ChunkUploadView, CollectStepView, FileRead, ReadOutcome, ReadStepView,
};

verus! {

/// A file comes back as it was uploaded. Where the chunks that an upload posts come back for a
/// download, each as it was posted and in their order, the download ends with the content that
/// was read, all of it, and with the name under which the file was stored.
///
/// Something was read, or the stored name is empty: without content there is no chunk for a name.
pub proof fn upload_then_download(
    file_name: Seq<char>,
    started: ChunkUploadView,
    reads: Seq<FileRead>,
    answers: Seq<ChunkAnswer>,
)
    requires
        started.file_name == framing::stored_name(file_name),
        started.chunks == 0,
        forall|i: int| 0 <= i < reads.len() ==> (#[trigger] reads[i]).count > 0,
        reads.len() > 0 || framing::stored_name(file_name).len() == 0,
        answers.len() == reads.len(),
        forall|i: int|
            0 <= i < answers.len() ==> download::brings(
                #[trigger] answers[i],
                upload::carried(upload::uploaded(started, reads).1)[i],
            ),
    ensures
        upload::uploaded(started, reads).0.chunks == reads.len(),
        download::downloaded(reads.len(), answers) == (DownloadStepView::Complete {
            content: framing::joined(upload::contents(reads)),
            file_name: framing::stored_name(file_name),
        }),
{
    let chunks = upload::carried(upload::uploaded(started, reads).1);
    upload::every_read_is_posted(started, reads);
    download::download_joins_the_chunks(reads.len(), chunks, answers);
    framing::stored_file_reads_back(file_name, upload::contents(reads));
}

/// The record of an upload leads back to its chunks. Where the chunks were given the numbers
/// `asset_ids`, the upload ends with a record from which a download asks for those numbers, in
/// the repository of the upload, once each and in the order in which the chunks were read.
pub proof fn record_leads_to_the_chunks(
    started: ChunkUploadView,
    reads: Seq<FileRead>,
    asset_ids: Seq<u32>,
    answers: Seq<AssetAnswer>,
)
    requires
        started.chunks == 0,
        forall|i: int| 0 <= i < reads.len() ==> (#[trigger] reads[i]).count > 0,
        answers.len() == asset_ids.len() == reads.len(),
        forall|i: int| 0 <= i < answers.len() ==> upload::gives(#[trigger] answers[i], asset_ids[i]),
    ensures
        ({
            let chunks = upload::uploaded(started, reads).0.chunks;
            let record = FileIdView { asset_ids, repo: started.repo };
            &&& upload::collected(started.repo, chunks, answers) == CollectStepView::Complete(record)
            &&& download::chunk_requests(record) == Seq::new(
                reads.len(),
                |i: int| request::get_chunk(started.repo, asset_ids[i]),
            )
        }),
{
    upload::every_read_is_posted(started, reads);
    upload::collection_keeps_the_order(started.repo, reads.len(), asset_ids, answers);
    let record = FileIdView { asset_ids, repo: started.repo };
    assert(download::chunk_requests(record) =~= Seq::new(
        reads.len(),
        |i: int| request::get_chunk(started.repo, asset_ids[i]),
    ));
}

/// A file is stored from its first read to its record. Each read that took something is posted, and
/// the read of nothing ends the file; where each chunk is then given a number, the upload ends with
/// those numbers in the order of the reads, and with the repository that it started with. A download
/// from that record asks for exactly these assets of that repository.
pub proof fn upload_ends_with_its_record(
    started: ChunkUploadView,
    reads: Seq<FileRead>,
    buffer: Seq<u8>,
    asset_ids: Seq<u32>,
    answers: Seq<AssetAnswer>,
)
    requires
        started.chunks == 0,
        forall|i: int| 0 <= i < reads.len() ==> (#[trigger] reads[i]).count > 0,
        answers.len() == asset_ids.len() == reads.len(),
        forall|i: int|
            0 <= i < answers.len() ==> (#[trigger] answers[i]).id == Ok::<u32, NetworkError>(asset_ids[i])
                && (answers[i].response matches Ok(status) && status != 401 && status != 403 && status
                != 404),
    ensures
        upload::after_read(upload::uploaded(started, reads).0, buffer, ReadOutcome::Read(0))
            matches ReadStepView::Finished(start) && upload::gathered(start, answers)
            == CollectStepView::Complete(FileIdView { asset_ids, repo: started.repo }),
        download::chunk_requests(FileIdView { asset_ids, repo: started.repo }).len() == reads.len(),
        forall|i: int|
            0 <= i < reads.len() ==> request::is_asset_url(
                (#[trigger] download::chunk_requests(
                    FileIdView { asset_ids, repo: started.repo },
                )[i]).url,
                started.repo,
                asset_ids[i],
            ),
{
    let record = FileIdView { asset_ids, repo: started.repo };
    upload::every_read_is_posted(started, reads);
    upload::end_of_file_starts_the_gathering(upload::uploaded(started, reads).0, buffer);
    upload::collection_keeps_the_order(started.repo, reads.len(), asset_ids, answers);
    assert forall|i: int| 0 <= i < reads.len() implies request::is_asset_url(
        (#[trigger] download::chunk_requests(record)[i]).url,
        started.repo,
        asset_ids[i],
    ) by {
        download::every_number_is_asked_for(record, i);
    }
}

/// Whatever a file holds and however it was read, the chunks of the upload are its stored name in
/// UTF-8, a question mark and the bytes that were read, cut where the reads were cut; and the stored
/// name is the file's own where that has neither question nor exclamation marks.
pub proof fn stored_bytes_are_name_and_content(
    file_name: Seq<char>,
    started: ChunkUploadView,
    reads: Seq<FileRead>,
)
    requires
        started.file_name == framing::stored_name(file_name),
        started.chunks == 0,
        reads.len() > 0,
        forall|i: int| 0 <= i < reads.len() ==> 0 < (#[trigger] reads[i]).count <= reads[i].buffer.len(),
    ensures
        upload::uploaded(started, reads).1.len() == reads.len(),
        forall|i: int|
            0 <= i < reads.len() ==> (#[trigger] upload::uploaded(started, reads).1[i]).payload
                == PayloadView::Bytes(
                if i == 0 {
                    encode_utf8(framing::stored_name(file_name)) + seq![63u8] + reads[i].buffer.take(
                        reads[i].count as int,
                    )
                } else {
                    reads[i].buffer.take(reads[i].count as int)
                },
            ),
        !file_name.contains('?') && !file_name.contains('!') ==> framing::stored_name(file_name)
            == file_name,
{
    upload::every_read_is_posted(started, reads);
    let contents = upload::contents(reads);
    assert forall|i: int| 0 <= i < reads.len() implies (#[trigger] upload::uploaded(
        started,
        reads,
    ).1[i]).payload == PayloadView::Bytes(
        if i == 0 {
            encode_utf8(framing::stored_name(file_name)) + seq![63u8] + reads[i].buffer.take(
                reads[i].count as int,
            )
        } else {
            reads[i].buffer.take(reads[i].count as int)
        },
    ) by {
        framing::one_chunk_for_each_read(started.file_name, contents, i);
        assert(contents[i] =~= reads[i].buffer.take(reads[i].count as int));
    }
    if !file_name.contains('?') && !file_name.contains('!') {
        framing::name_without_marks_is_kept(file_name);
    }
}

} // verus!
