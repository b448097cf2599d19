//! Uploading a file.
//!
//! An upload goes through its stages one after the other: [`FileId::upload`] checks what it is
//! given, the release is looked for, [`ChunkUpload`] posts a chunk for each read, and
//! [`AssetCollection`] gathers the numbers that the chunks were given: of each response first the
//! status, then the number.

use reqwest::Error as NetworkError;
use std::io::Error as IoError;
use vstd::prelude::*;
use vstd::string::*;
use vstd::utf8::*;
use crate::address;
use crate::error::Error;
use crate::file_id::{FileId, FileIdView};
use crate::framing;
use crate::release;
use crate::release::ReleaseStep;
use crate::repo;
use crate::request;
use crate::request::{Method, PayloadView, Request, RequestView};
use crate::text;

verus! {

/// An upload whose repository has the form `owner/repo`.
#[derive(Debug)]
pub struct Upload {
    file_name: String,
    repo: String,
}

/// An upload whose chunks are being posted.
#[derive(Debug)]
pub struct ChunkUpload {
    file_name: String,
    repo: String,
    upload_url: String,
    id: String,
    chunks: usize,
}

/// An upload whose chunks are all posted, and some of whose answers are still to come.
#[derive(Debug)]
pub struct AssetCollection {
    repo: String,
    chunks: usize,
    asset_ids: Vec<u32>,
}

/// An upload whose next chunk was answered, and that waits for the number in the answer.
#[derive(Debug)]
pub struct AssetReading {
    repo: String,
    chunks: usize,
    asset_ids: Vec<u32>,
}

/// What came of a read from the file.
#[derive(Debug)]
pub enum ReadOutcome {
    /// So many bytes were put at the start of the buffer.
    Read(usize),
    /// The read failed.
    Failed {
        /// Why.
        error: IoError,
        /// Whether that means only that nothing is there yet.
        would_block: bool,
    },
}

/// What the upload wants done after a read, or how it ended.
#[derive(Debug)]
pub enum ReadStep {
    /// Wait for so many seconds, then read again.
    Wait {
        /// The upload that goes on.
        upload: ChunkUpload,
        /// How long to wait.
        seconds: u64,
    },
    /// Send the request, and read again without waiting for the answer.
    Post {
        /// The upload that goes on.
        upload: ChunkUpload,
        /// What to send.
        request: Request,
    },
    /// The file is read: gather the answers.
    Finished(CollectStep),
    /// The upload ended with this error.
    Failed(Error),
}

/// What the upload waits for after the file was read, or how it ended.
#[derive(Debug)]
pub enum CollectStep {
    /// The response to the next chunk, in the order of the chunks.
    Pending(AssetCollection),
    /// The file is stored.
    Complete(FileId),
    /// The upload ended with this error.
    Failed(Error),
}

/// What the upload does with the response to a chunk.
#[derive(Debug)]
pub enum AssetStep {
    /// Read the number that the chunk was given.
    ReadId(AssetReading),
    /// The upload ended with this error.
    Failed(Error),
}

/// The view of an [`Upload`].
#[verifier::ext_equal]
pub struct UploadView {
    /// The name under which the file is stored.
    pub file_name: Seq<char>,
    /// The repository.
    pub repo: Seq<char>,
}

/// The view of a [`ChunkUpload`].
#[verifier::ext_equal]
pub struct ChunkUploadView {
    /// The name under which the file is stored.
    pub file_name: Seq<char>,
    /// The repository.
    pub repo: Seq<char>,
    /// Where chunks go.
    pub upload_url: Seq<char>,
    /// What the names of all chunks start with.
    pub id: Seq<char>,
    /// The number of chunks that were posted.
    pub chunks: nat,
}

/// The view of an [`AssetCollection`] and of an [`AssetReading`].
#[verifier::ext_equal]
pub struct AssetCollectionView {
    /// The repository.
    pub repo: Seq<char>,
    /// The number of chunks that were posted.
    pub chunks: nat,
    /// The numbers of the first chunks, as far as the answers have come.
    pub asset_ids: Seq<u32>,
}

/// The view of a [`ReadStep`].
#[verifier::ext_equal]
pub enum ReadStepView {
    /// Wait, then read again.
    Wait {
        /// The upload that goes on.
        upload: ChunkUploadView,
        /// How long to wait.
        seconds: u64,
    },
    /// Send the request, and read again.
    Post {
        /// The upload that goes on.
        upload: ChunkUploadView,
        /// What to send.
        request: RequestView,
    },
    /// The file is read.
    Finished(CollectStepView),
    /// Ended with this error.
    Failed(Error),
}

/// The view of a [`CollectStep`].
#[verifier::ext_equal]
pub enum CollectStepView {
    /// The next answer.
    Pending(AssetCollectionView),
    /// The file is stored.
    Complete(FileIdView),
    /// Ended with this error.
    Failed(Error),
}

/// The view of an [`AssetStep`].
#[verifier::ext_equal]
pub enum AssetStepView {
    /// Read the number.
    ReadId(AssetCollectionView),
    /// Ended with this error.
    Failed(Error),
}

impl View for Upload {
    type V = UploadView;

    closed spec fn view(&self) -> UploadView {
        UploadView { file_name: self.file_name@, repo: self.repo@ }
    }
}

impl View for ChunkUpload {
    type V = ChunkUploadView;

    closed spec fn view(&self) -> ChunkUploadView {
        ChunkUploadView {
            file_name: self.file_name@,
            repo: self.repo@,
            upload_url: self.upload_url@,
            id: self.id@,
            chunks: self.chunks as nat,
        }
    }
}

impl View for AssetCollection {
    type V = AssetCollectionView;

    closed spec fn view(&self) -> AssetCollectionView {
        AssetCollectionView {
            repo: self.repo@,
            chunks: self.chunks as nat,
            asset_ids: self.asset_ids@,
        }
    }
}

impl View for AssetReading {
    type V = AssetCollectionView;

    closed spec fn view(&self) -> AssetCollectionView {
        AssetCollectionView {
            repo: self.repo@,
            chunks: self.chunks as nat,
            asset_ids: self.asset_ids@,
        }
    }
}

impl View for AssetStep {
    type V = AssetStepView;

    open spec fn view(&self) -> AssetStepView {
        match *self {
            AssetStep::ReadId(reading) => AssetStepView::ReadId(reading@),
            AssetStep::Failed(error) => AssetStepView::Failed(error),
        }
    }
}

impl View for ReadStep {
    type V = ReadStepView;

    open spec fn view(&self) -> ReadStepView {
        match *self {
            ReadStep::Wait { upload, seconds } => ReadStepView::Wait { upload: upload@, seconds },
            ReadStep::Post { upload, request } => ReadStepView::Post {
                upload: upload@,
                request: request@,
            },
            ReadStep::Finished(step) => ReadStepView::Finished(step@),
            ReadStep::Failed(error) => ReadStepView::Failed(error),
        }
    }
}

impl View for CollectStep {
    type V = CollectStepView;

    open spec fn view(&self) -> CollectStepView {
        match *self {
            CollectStep::Pending(collection) => CollectStepView::Pending(collection@),
            CollectStep::Complete(file_id) => CollectStepView::Complete(file_id@),
            CollectStep::Failed(error) => CollectStepView::Failed(error),
        }
    }
}

/// The tag of the release that files are put in.
pub open spec fn files_tag() -> Seq<char> {
    "files"@
}

/// True of the digits that a UUID is written with.
pub open spec fn is_hex_digit(c: char) -> bool {
    '0' <= c <= '9' || 'a' <= c <= 'f'
}

/// True where `text` is a random UUID, written with small letters and hyphens.
pub open spec fn is_random_uuid(text: Seq<char>) -> bool {
    &&& text.len() == 36
    &&& forall|i: int|
        0 <= i < 36 ==> if i == 8 || i == 13 || i == 18 || i == 23 {
            #[trigger] text[i] == '-'
        } else {
            is_hex_digit(text[i])
        }
    &&& text[14] == '4'
    &&& text[19] == '8' || text[19] == '9' || text[19] == 'a' || text[19] == 'b'
}

/// The query that names chunk number `index`.
pub open spec fn chunk_query(id: Seq<char>, index: nat) -> Seq<char> {
    "name="@ + id + "-chunk"@ + text::decimal_digits(index)
}

/// Where chunk number `index` goes.
pub open spec fn chunk_url(upload: ChunkUploadView, index: nat) -> Seq<char> {
    address::url_query_set(upload.upload_url, Some(chunk_query(upload.id, index)))
}

/// The bytes that the query of any chunk can need in the URL, with its question mark.
pub open spec fn chunk_room(id: Seq<char>) -> nat {
    if address::is_plain_query(id) {
        1 + id.len() + 31
    } else {
        1 + 3 * (encode_utf8(id).len() + 31)
    }
}

/// The part of the buffer that a read of `n` bytes filled.
pub open spec fn filled(buffer: Seq<u8>, n: nat) -> Seq<u8> {
    if n < buffer.len() {
        buffer.take(n as int)
    } else {
        buffer
    }
}

/// The upload after one more chunk.
pub open spec fn one_more(upload: ChunkUploadView) -> ChunkUploadView {
    ChunkUploadView { chunks: upload.chunks + 1, ..upload }
}

/// The step once the file is read.
pub open spec fn collection_started(repo: Seq<char>, chunks: nat) -> CollectStepView {
    if chunks == 0 {
        CollectStepView::Complete(FileIdView { asset_ids: Seq::empty(), repo })
    } else {
        CollectStepView::Pending(AssetCollectionView { repo, chunks, asset_ids: Seq::empty() })
    }
}

/// The step after a read.
pub open spec fn after_read(
    upload: ChunkUploadView,
    buffer: Seq<u8>,
    outcome: ReadOutcome,
) -> ReadStepView {
    match outcome {
        ReadOutcome::Failed { error, would_block } => if would_block {
            ReadStepView::Wait { upload, seconds: 1 }
        } else {
            ReadStepView::Failed(Error::Io(error))
        },
        ReadOutcome::Read(n) => if n == 0 {
            ReadStepView::Finished(collection_started(upload.repo, upload.chunks))
        } else {
            ReadStepView::Post {
                upload: one_more(upload),
                request: request::post_chunk(
                    chunk_url(upload, upload.chunks),
                    framing::chunk_bytes(upload.file_name, upload.chunks, filled(buffer, n as nat)),
                ),
            }
        },
    }
}

/// The step after the response to the next chunk: its status, or why there is none.
pub open spec fn after_asset_response(
    collection: AssetCollectionView,
    response: Result<u16, NetworkError>,
) -> AssetStepView {
    match response {
        Err(error) => AssetStepView::Failed(Error::Reqwest(error)),
        Ok(status) => if request::denies_access(status) {
            AssetStepView::Failed(Error::InvalidRepoOrInvalidToken)
        } else {
            AssetStepView::ReadId(collection)
        },
    }
}

/// The step after the number in that response: the one that the chunk was given, or why it could
/// not be read.
pub open spec fn after_asset(
    collection: AssetCollectionView,
    id: Result<u32, NetworkError>,
) -> CollectStepView {
    match id {
        Err(error) => CollectStepView::Failed(Error::Reqwest(error)),
        Ok(asset_id) => {
            let asset_ids = collection.asset_ids.push(asset_id);
            if asset_ids.len() < collection.chunks {
                CollectStepView::Pending(AssetCollectionView { asset_ids, ..collection })
            } else {
                CollectStepView::Complete(FileIdView { asset_ids, repo: collection.repo })
            }
        },
    }
}

/// Calls `uuid::Uuid::new_v4`, which makes a UUID of random bits, and writes it out as its
/// `Display` does, with hyphens and small letters. Which one it is depends on chance: nothing is
/// said of it but its form. `new_v4` panics where the system has no random bits to give.
#[verifier::external_body]
fn new_id() -> (id: String)
    ensures
        is_random_uuid(id@),
{
    uuid::Uuid::new_v4().to_string()
}

/// The bytes that the query of any chunk can need in the URL, with its question mark; any number
/// past 4 GiB where they are so many.
fn room_for_chunks(id: &str) -> (room: u64)
    ensures
        room == chunk_room(id@) || (u32::MAX < room && u32::MAX < chunk_room(id@)),
{
    let mut plain = true;
    for c in it: id.chars()
        invariant
            it.seq() == id@,
            plain <==> forall|i: int|
                0 <= i < it.index() ==> address::plain_query_char(#[trigger] id@[i]),
    {
        if !('0' <= c && c <= '9' || 'a' <= c && c <= 'z' || c == '=' || c == '-') {
            plain = false;
        }
    }
    let len: u64 = id.as_bytes().len() as u64;
    proof {
        if plain {
            plain_text_takes_one_byte_each(id@);
        }
    }
    if plain {
        if len > 0xffff_ffff {
            len
        } else {
            len + 32
        }
    } else if len > 0xffff_ffff {
        len
    } else {
        3 * (len + 31) + 1
    }
}

impl FileId {
    /// Starts the upload of a file to the releases of a GitHub repository.
    ///
    /// The token that goes with the requests must have read and write access to the repository.
    /// `repo` must be in the format `owner/repo`.
    ///
    /// # Errors
    /// Returns an [`Error::InvalidRepoOrInvalidToken`] if `repo` is not in the correct format. The
    /// upload ends with the same error if the repository doesn't exist, or if the token does not have
    /// access to it: see [`release::create_or_get_release`] and [`AssetCollection::on_response`].
    pub fn upload(file_name: &str, repo: String) -> (upload: Result<Upload, Error>)
        ensures
            repo::is_repo_name(repo@) ==> (upload matches Ok(upload) && upload@ == (UploadView {
                file_name: framing::stored_name(file_name@),
                repo: repo@,
            })),
            !repo::is_repo_name(repo@) ==> upload == Err::<Upload, Error>(
                Error::InvalidRepoOrInvalidToken,
            ),
    {
        let file_name = framing::sanitize_file_name(file_name);
        if !repo::has_repo_form(repo.as_str()) {
            return Err(Error::InvalidRepoOrInvalidToken);
        }
        Ok(Upload { file_name, repo })
    }
}

impl Upload {
    /// Starts the search for the release that the file is put in.
    pub fn find_release(&self) -> (step: ReleaseStep)
        ensures
            step@ == release::search_started(self@.repo, files_tag()),
    {
        release::create_or_get_release(self.repo.clone(), "files".to_owned())
    }

    /// Starts posting chunks to `upload_url`, under names that start with a new random UUID.
    ///
    /// `None` where `upload_url` is no URL, or has no room for the query that names a chunk.
    pub fn begin(self, upload_url: String) -> (upload: Option<ChunkUpload>)
        ensures
            upload matches Some(upload) ==> {
                &&& is_random_uuid(upload@.id)
                &&& upload@ == (ChunkUploadView {
                    file_name: self@.file_name,
                    repo: self@.repo,
                    upload_url: upload_url@,
                    id: upload@.id,
                    chunks: 0,
                })
            },
            upload is Some <==> address::query_fits(upload_url@, 1 + 36 + 31),
    {
        let id = new_id();
        proof {
            random_uuid_is_plain(id@);
        }
        self.begin_with_id(upload_url, id)
    }

    /// Starts posting chunks to `upload_url`, under names that start with `id`.
    ///
    /// `None` where `upload_url` is no URL, or has no room for the query that names a chunk.
    pub fn begin_with_id(self, upload_url: String, id: String) -> (upload: Option<ChunkUpload>)
        ensures
            upload is Some <==> address::query_fits(upload_url@, chunk_room(id@)),
            upload matches Some(upload) ==> upload@ == (ChunkUploadView {
                file_name: self@.file_name,
                repo: self@.repo,
                upload_url: upload_url@,
                id: id@,
                chunks: 0,
            }),
    {
        if !address::fits(upload_url.as_str(), room_for_chunks(id.as_str())) {
            return None;
        }
        Some(
            ChunkUpload {
                file_name: self.file_name,
                repo: self.repo,
                upload_url,
                id,
                chunks: 0,
            },
        )
    }
}

impl ChunkUpload {
    /// There is room in the URL for the query that names a chunk.
    #[verifier::type_invariant]
    spec fn has_room(self) -> bool {
        address::query_fits(self.upload_url@, chunk_room(self.id@))
    }

    /// The number of chunks that were posted.
    pub fn chunks(&self) -> (chunks: usize)
        ensures
            chunks == self@.chunks,
    {
        self.chunks
    }

    /// Writes the query that names the next chunk.
    pub fn next_query(&self) -> (query: String)
        ensures
            query@ == chunk_query(self@.id, self@.chunks),
    {
        let number = text::decimal(self.chunks as u64);
        "name=".to_owned().concat(self.id.as_str()).concat("-chunk").concat(number.as_str())
    }

    /// Writes the address that the next chunk goes to.
    fn next_url(&self) -> (url: String)
        ensures
            url@ == chunk_url(self@, self@.chunks),
            address::is_bare_url(self@.upload_url) && is_random_uuid(self@.id) ==> url@
                == self@.upload_url + seq!['?'] + chunk_query(self@.id, self@.chunks),
    {
        let query = self.next_query();
        proof {
            use_type_invariant(self);
            chunk_query_fits(self.id@, self.chunks as nat);
            if is_random_uuid(self.id@) {
                random_uuid_is_plain(self.id@);
                chunk_query_is_plain(self.id@, self.chunks as nat);
            }
        }
        address::set_query(self.upload_url.as_str(), Some(query.as_str()))
    }

    /// Goes on after a read from the file into `buffer`.
    pub fn on_read(self, buffer: Vec<u8>, outcome: ReadOutcome) -> (step: ReadStep)
        requires
            self@.chunks < usize::MAX,
        ensures
            step@ == after_read(self@, buffer@, outcome),
            step@ matches ReadStepView::Post { request, .. } ==> address::is_bare_url(
                self@.upload_url,
            ) && is_random_uuid(self@.id) ==> request.url == self@.upload_url + seq!['?']
                + chunk_query(self@.id, self@.chunks),
    {
        match outcome {
            ReadOutcome::Failed { error, would_block } => {
                if would_block {
                    ReadStep::Wait { upload: self, seconds: 1 }
                } else {
                    ReadStep::Failed(Error::from(error))
                }
            },
            ReadOutcome::Read(n) => {
                if n == 0 {
                    return ReadStep::Finished(collect_assets(self.repo, self.chunks));
                }
                let url = self.next_url();
                let mut chunk = buffer;
                if n < chunk.len() {
                    chunk.truncate(n);
                }
                assert(chunk@ =~= filled(buffer@, n as nat));
                if self.chunks == 0 {
                    let mut header = self.file_name.clone();
                    header.push('?');
                    framing::prepend_slice(&mut chunk, header.as_str().as_bytes());
                }
                proof {
                    use_type_invariant(&self);
                }
                let upload = ChunkUpload {
                    file_name: self.file_name,
                    repo: self.repo,
                    upload_url: self.upload_url,
                    id: self.id,
                    chunks: self.chunks + 1,
                };
                ReadStep::Post { upload, request: request::post_chunk_request(url, chunk) }
            },
        }
    }
}

/// Starts gathering the numbers of `chunks` chunks.
fn collect_assets(repo: String, chunks: usize) -> (step: CollectStep)
    ensures
        step@ == collection_started(repo@, chunks as nat),
{
    let asset_ids: Vec<u32> = Vec::new();
    if chunks == 0 {
        CollectStep::Complete(FileId::from_raw(asset_ids, repo))
    } else {
        CollectStep::Pending(AssetCollection { repo, chunks, asset_ids })
    }
}

impl AssetCollection {
    /// An answer is still to come.
    #[verifier::type_invariant]
    spec fn is_waiting(self) -> bool {
        self.asset_ids@.len() < self.chunks
    }

    /// Goes on with the response to the next chunk: its status, or why there is none.
    pub fn on_response(self, response: Result<u16, NetworkError>) -> (step: AssetStep)
        ensures
            step@ == after_asset_response(self@, response),
    {
        match response {
            Err(error) => AssetStep::Failed(Error::from(error)),
            Ok(status) => {
                if request::is_denied(status) {
                    return AssetStep::Failed(Error::InvalidRepoOrInvalidToken);
                }
                AssetStep::ReadId(
                    AssetReading {
                        repo: self.repo,
                        chunks: self.chunks,
                        asset_ids: self.asset_ids,
                    },
                )
            },
        }
    }
}

impl AssetReading {
    /// Goes on with the number in the response: the one that the chunk was given, or why it could not
    /// be read.
    pub fn on_id(self, id: Result<u32, NetworkError>) -> (step: CollectStep)
        ensures
            step@ == after_asset(self@, id),
    {
        match id {
            Err(error) => CollectStep::Failed(Error::from(error)),
            Ok(asset_id) => {
                let mut asset_ids = self.asset_ids;
                asset_ids.push(asset_id);
                if asset_ids.len() < self.chunks {
                    CollectStep::Pending(
                        AssetCollection { repo: self.repo, chunks: self.chunks, asset_ids },
                    )
                } else {
                    CollectStep::Complete(FileId::from_raw(asset_ids, self.repo))
                }
            },
        }
    }
}

/// One read from the file: the buffer, and how many bytes were put at its start.
pub struct FileRead {
    /// The buffer.
    pub buffer: Seq<u8>,
    /// The number of bytes.
    pub count: usize,
}

/// What each read took from the file.
pub open spec fn contents(reads: Seq<FileRead>) -> Seq<Seq<u8>> {
    Seq::new(reads.len(), |i: int| filled(reads[i].buffer, reads[i].count as nat))
}

/// The upload after `reads`, and the requests that it sent for them.
pub open spec fn uploaded(upload: ChunkUploadView, reads: Seq<FileRead>) -> (
    ChunkUploadView,
    Seq<RequestView>,
)
    decreases reads.len(),
{
    if reads.len() == 0 {
        (upload, Seq::empty())
    } else {
        let (before, sent) = uploaded(upload, reads.drop_last());
        let read = reads.last();
        match after_read(before, read.buffer, ReadOutcome::Read(read.count)) {
            ReadStepView::Post { upload, request } => (upload, sent.push(request)),
            _ => (before, sent),
        }
    }
}

/// The bytes that each request carries.
pub open spec fn carried(requests: Seq<RequestView>) -> Seq<Seq<u8>> {
    Seq::new(requests.len(), |i: int| requests[i].payload->Bytes_0)
}

/// Every read that took something is posted as one chunk, in the order of the reads, to the
/// address of its number; the first chunk starts with the name of the file.
pub proof fn every_read_is_posted(upload: ChunkUploadView, reads: Seq<FileRead>)
    requires
        upload.chunks == 0,
        forall|i: int| 0 <= i < reads.len() ==> (#[trigger] reads[i]).count > 0,
    ensures
        uploaded(upload, reads).0 == (ChunkUploadView { chunks: reads.len(), ..upload }),
        uploaded(upload, reads).1 == Seq::new(
            reads.len(),
            |i: int|
                request::post_chunk(
                    chunk_url(upload, i as nat),
                    framing::chunks_of(upload.file_name, contents(reads))[i],
                ),
        ),
        carried(uploaded(upload, reads).1) == framing::chunks_of(upload.file_name, contents(reads)),
    decreases reads.len(),
{
    let chunks = framing::chunks_of(upload.file_name, contents(reads));
    let (after, sent) = uploaded(upload, reads);
    let expected = Seq::new(
        reads.len(),
        |i: int| request::post_chunk(chunk_url(upload, i as nat), chunks[i]),
    );
    if reads.len() > 0 {
        let front = reads.drop_last();
        every_read_is_posted(upload, front);
        let last = reads.len() - 1;
        assert(contents(reads)[last] == filled(reads[last].buffer, reads[last].count as nat));
        let earlier = framing::chunks_of(upload.file_name, contents(front));
        assert forall|i: int| 0 <= i < last implies earlier[i] == chunks[i] by {
            assert(contents(front)[i] == contents(reads)[i]);
        }
        assert(sent =~= expected);
    } else {
        assert(sent =~= expected);
    }
    assert(carried(sent) =~= chunks);
}

/// What a read leaves in the rest of its buffer is in no chunk: a chunk holds exactly the bytes
/// that were read, and no more than fit in a buffer of [`framing::CHUNK_SIZE`].
pub proof fn chunks_hold_what_was_read(buffer: Seq<u8>, count: nat)
    requires
        buffer.len() == framing::CHUNK_SIZE,
        count <= buffer.len(),
    ensures
        filled(buffer, count).len() == count,
        filled(buffer, count) == buffer.take(count as int),
        filled(buffer, count).len() <= 100_000_000,
{
    assert(filled(buffer, count) =~= buffer.take(count as int));
}

/// Chunks with different numbers have different names, and so different addresses at a bare URL.
pub proof fn chunk_names_differ(upload_url: Seq<char>, id: Seq<char>, a: nat, b: nat)
    requires
        a != b,
    ensures
        chunk_query(id, a) != chunk_query(id, b),
        upload_url + seq!['?'] + chunk_query(id, a) != upload_url + seq!['?'] + chunk_query(id, b),
{
    let base = upload_url + seq!['?'];
    assert((base + chunk_query(id, a)).skip(base.len() as int) =~= chunk_query(id, a));
    assert((base + chunk_query(id, b)).skip(base.len() as int) =~= chunk_query(id, b));
    if chunk_query(id, a) == chunk_query(id, b) {
        let front = "name="@ + id + "-chunk"@;
        let n = front.len() as int;
        assert(chunk_query(id, a).skip(n) =~= text::decimal_digits(a));
        assert(chunk_query(id, b).skip(n) =~= text::decimal_digits(b));
        text::decimal_digits_injective(a, b);
    }
}

/// What came back for one chunk: the status, then the number.
pub struct AssetAnswer {
    /// The status of the response, or why there is none.
    pub response: Result<u16, NetworkError>,
    /// The number, or why it could not be read.
    pub id: Result<u32, NetworkError>,
}

/// True where `answer` gives the chunk the number `asset_id`.
pub open spec fn gives(answer: AssetAnswer, asset_id: u32) -> bool {
    &&& answer.response matches Ok(status) && !request::denies_access(status)
    &&& answer.id == Ok::<u32, NetworkError>(asset_id)
}

/// Why `answer` gives the chunk no number: a failed request or an unreadable number is the network's
/// error, and a status that denies access means that the token gives no right to write.
pub open spec fn refusal(answer: AssetAnswer) -> Option<Error> {
    match answer.response {
        Err(error) => Some(Error::Reqwest(error)),
        Ok(status) => if request::denies_access(status) {
            Some(Error::InvalidRepoOrInvalidToken)
        } else {
            match answer.id {
                Err(error) => Some(Error::Reqwest(error)),
                Ok(_) => None,
            }
        },
    }
}

/// The step after the answer to one chunk.
pub open spec fn after_asset_answer(
    collection: AssetCollectionView,
    answer: AssetAnswer,
) -> CollectStepView {
    match after_asset_response(collection, answer.response) {
        AssetStepView::ReadId(collection) => after_asset(collection, answer.id),
        AssetStepView::Failed(error) => CollectStepView::Failed(error),
    }
}

/// The end of gathering `answers`, from `start` on.
pub open spec fn gathered(start: CollectStepView, answers: Seq<AssetAnswer>) -> CollectStepView
    decreases answers.len(),
{
    if answers.len() == 0 {
        start
    } else {
        match gathered(start, answers.drop_last()) {
            CollectStepView::Pending(collection) => after_asset_answer(collection, answers.last()),
            ended => ended,
        }
    }
}

/// The end of gathering `answers`, from the first chunk on.
pub open spec fn collected(
    repo: Seq<char>,
    chunks: nat,
    answers: Seq<AssetAnswer>,
) -> CollectStepView {
    gathered(collection_started(repo, chunks), answers)
}

/// Where every chunk was given a number, the upload ends with those numbers, one for each chunk
/// and in the order of the chunks; before the last answer it is still waiting.
pub proof fn collection_keeps_the_order(
    repo: Seq<char>,
    chunks: nat,
    asset_ids: Seq<u32>,
    answers: Seq<AssetAnswer>,
)
    requires
        answers.len() == asset_ids.len() <= chunks,
        forall|i: int| 0 <= i < answers.len() ==> gives(#[trigger] answers[i], asset_ids[i]),
    ensures
        collected(repo, chunks, answers) == if asset_ids.len() < chunks {
            CollectStepView::Pending(AssetCollectionView { repo, chunks, asset_ids })
        } else {
            CollectStepView::Complete(FileIdView { asset_ids, repo })
        },
    decreases answers.len(),
{
    if answers.len() == 0 {
        assert(asset_ids =~= Seq::<u32>::empty());
    } else {
        collection_keeps_the_order(repo, chunks, asset_ids.drop_last(), answers.drop_last());
        assert(asset_ids.drop_last().push(asset_ids.last()) =~= asset_ids);
        assert(gives(answers[answers.len() - 1], asset_ids[answers.len() - 1]));
    }
}

/// The first chunk that was given no number ends the upload with the error that its answer means,
/// whatever became of the chunks after it: where the token gives no right to write, with
/// [`Error::InvalidRepoOrInvalidToken`].
pub proof fn first_failure_ends_the_upload(
    repo: Seq<char>,
    chunks: nat,
    asset_ids: Seq<u32>,
    answers: Seq<AssetAnswer>,
)
    requires
        asset_ids.len() < chunks,
        asset_ids.len() < answers.len(),
        forall|i: int| 0 <= i < asset_ids.len() ==> gives(#[trigger] answers[i], asset_ids[i]),
        refusal(answers[asset_ids.len() as int]) is Some,
    ensures
        collected(repo, chunks, answers) == CollectStepView::Failed(
            refusal(answers[asset_ids.len() as int])->Some_0,
        ),
        answers[asset_ids.len() as int].response matches Ok(status) && request::denies_access(status)
            ==> collected(repo, chunks, answers) == CollectStepView::Failed(
            Error::InvalidRepoOrInvalidToken,
        ),
    decreases answers.len(),
{
    let front = answers.drop_last();
    if answers.len() == asset_ids.len() + 1 {
        collection_keeps_the_order(repo, chunks, asset_ids, front);
    } else {
        first_failure_ends_the_upload(repo, chunks, asset_ids, front);
    }
}

proof fn random_uuid_is_plain(id: Seq<char>)
    requires
        is_random_uuid(id),
    ensures
        address::is_plain_query(id),
{
}

proof fn plain_text_takes_one_byte_each(text: Seq<char>)
    requires
        address::is_plain_query(text),
    ensures
        encode_utf8(text).len() == text.len(),
{
    assert(is_ascii_chars(text));
    is_ascii_chars_encode_utf8(text);
}

proof fn chunk_query_is_plain(id: Seq<char>, index: nat)
    requires
        address::is_plain_query(id),
    ensures
        address::is_plain_query(chunk_query(id, index)),
{
    reveal_strlit("name=");
    reveal_strlit("-chunk");
    text::decimal_digits_are_digits(index);
}

proof fn chunk_query_fits(id: Seq<char>, index: nat)
    requires
        index <= u64::MAX,
    ensures
        address::query_room(chunk_query(id, index)) <= chunk_room(id),
{
    reveal_strlit("name=");
    reveal_strlit("-chunk");
    let digits = text::decimal_digits(index);
    text::decimal_digits_bounded(index);
    text::decimal_digits_are_digits(index);
    if address::is_plain_query(id) {
        chunk_query_is_plain(id, index);
    } else {
        plain_text_takes_one_byte_each("name="@);
        plain_text_takes_one_byte_each("-chunk"@);
        plain_text_takes_one_byte_each(digits);
        text::encode_utf8_concat("name="@, id);
        text::encode_utf8_concat("name="@ + id, "-chunk"@);
        text::encode_utf8_concat("name="@ + id + "-chunk"@, digits);
        let i = choose|i: int| 0 <= i < id.len() && !address::plain_query_char(#[trigger] id[i]);
        assert(chunk_query(id, index)[5 + i] == id[i]);
    }
}

/// True where `query` names chunk number `index` of the upload `id`.
pub open spec fn names_chunk(query: Seq<char>, id: Seq<char>, index: nat) -> bool {
    exists|number: Seq<char>| #[trigger]
        text::is_numeral(number, index) && query == "name="@ + id + "-chunk"@ + number
}

/// The query of a chunk says the identity of the upload and the number of the chunk in decimal.
pub proof fn query_names_the_chunk(id: Seq<char>, index: nat)
    ensures
        names_chunk(chunk_query(id, index), id, index),
{
    text::decimal_digits_say_the_number(index);
}

/// The bytes that a read put at the start of its buffer are posted, all of them and no others, as the
/// next chunk: behind the name of the file where it is the first. More than the buffer holds is not
/// posted. The upload goes on unchanged but for the number of its chunks.
pub proof fn read_bytes_are_posted(upload: ChunkUploadView, buffer: Seq<u8>, n: usize)
    requires
        n > 0,
    ensures
        after_read(upload, buffer, ReadOutcome::Read(n)) matches ReadStepView::Post {
            upload: next,
            request,
        } && {
            &&& next == (ChunkUploadView { chunks: upload.chunks + 1, ..upload })
            &&& request.method == Method::Post
            &&& exists|query: Seq<char>| #[trigger]
                names_chunk(query, upload.id, upload.chunks) && request.url == address::url_query_set(
                    upload.upload_url,
                    Some(query),
                )
            &&& request.headers.len() == 1
            &&& request.headers[0] == ("content-type"@, "application/octet-stream"@)
            &&& n <= buffer.len() && upload.chunks == 0 ==> request.payload == PayloadView::Bytes(
                encode_utf8(upload.file_name) + seq![63u8] + buffer.take(n as int),
            )
            &&& n <= buffer.len() && upload.chunks > 0 ==> request.payload == PayloadView::Bytes(
                buffer.take(n as int),
            )
            &&& n > buffer.len() && upload.chunks == 0 ==> request.payload == PayloadView::Bytes(
                encode_utf8(upload.file_name) + seq![63u8] + buffer,
            )
            &&& n > buffer.len() && upload.chunks > 0 ==> request.payload == PayloadView::Bytes(buffer)
        },
{
    query_names_the_chunk(upload.id, upload.chunks);
    framing::name_comes_before_the_content(
        upload.file_name,
        upload.chunks,
        filled(buffer, n as nat),
    );
    if n <= buffer.len() {
        assert(filled(buffer, n as nat) =~= buffer.take(n as int));
    }
}

/// A read of nothing is the end of the file: the numbers of all chunks that were posted are gathered,
/// for the repository of the upload and with none there yet; without a chunk the file is stored at
/// once.
pub proof fn end_of_file_starts_the_gathering(upload: ChunkUploadView, buffer: Seq<u8>)
    ensures
        upload.chunks == 0 ==> after_read(upload, buffer, ReadOutcome::Read(0))
            == ReadStepView::Finished(
            CollectStepView::Complete(FileIdView { asset_ids: Seq::empty(), repo: upload.repo }),
        ),
        upload.chunks > 0 ==> after_read(upload, buffer, ReadOutcome::Read(0))
            == ReadStepView::Finished(
            CollectStepView::Pending(
                AssetCollectionView {
                    repo: upload.repo,
                    chunks: upload.chunks,
                    asset_ids: Seq::empty(),
                },
            ),
        ),
{
}

/// A read that would block is tried again after a second, and the upload stays as it is; any other
/// failure ends the upload, and is kept.
pub proof fn failed_reads_are_told_apart(upload: ChunkUploadView, buffer: Seq<u8>, error: IoError)
    ensures
        after_read(upload, buffer, ReadOutcome::Failed { error, would_block: true }) == (
        ReadStepView::Wait { upload, seconds: 1 }),
        after_read(upload, buffer, ReadOutcome::Failed { error, would_block: false })
            == ReadStepView::Failed(Error::Io(error)),
{
}

/// The status of a response decides alone: 401, 403 and 404 end the upload for want of access, every
/// other status leads to the number and changes nothing, and a failed request is the network's error.
pub proof fn status_decides_the_upload(
    collection: AssetCollectionView,
    status: u16,
    error: NetworkError,
)
    ensures
        status == 401 || status == 403 || status == 404 ==> after_asset_response(
            collection,
            Ok(status),
        ) == AssetStepView::Failed(Error::InvalidRepoOrInvalidToken),
        status != 401 && status != 403 && status != 404 ==> after_asset_response(
            collection,
            Ok(status),
        ) == AssetStepView::ReadId(collection),
        after_asset_response(collection, Err(error)) == AssetStepView::Failed(Error::Reqwest(error)),
{
}

/// A number is put behind those that have come, whatever it is; with the one of the last chunk the
/// file is stored, in the repository of the upload.
pub proof fn number_is_appended(
    repo: Seq<char>,
    chunks: nat,
    asset_ids: Seq<u32>,
    asset_id: u32,
    error: NetworkError,
)
    requires
        asset_ids.len() < chunks,
    ensures
        asset_ids.len() + 1 < chunks ==> after_asset(
            AssetCollectionView { repo, chunks, asset_ids },
            Ok(asset_id),
        ) == CollectStepView::Pending(
            AssetCollectionView { repo, chunks, asset_ids: asset_ids.push(asset_id) },
        ),
        asset_ids.len() + 1 == chunks ==> after_asset(
            AssetCollectionView { repo, chunks, asset_ids },
            Ok(asset_id),
        ) == CollectStepView::Complete(FileIdView { asset_ids: asset_ids.push(asset_id), repo }),
        after_asset(AssetCollectionView { repo, chunks, asset_ids }, Err(error))
            == CollectStepView::Failed(Error::Reqwest(error)),
{
}

/// Files are put in the release under one tag.
pub proof fn files_have_one_release()
    ensures
        files_tag() == "files"@,
{
}

/// The query that names a chunk of an upload needs 68 bytes under a random UUID, and under no identity
/// more than three for each byte of it and of what stands around it.
pub proof fn chunk_needs_little_room(id: Seq<char>)
    ensures
        is_random_uuid(id) ==> chunk_room(id) == 68,
        chunk_room(id) <= 1 + 3 * (encode_utf8(id).len() + 31),
{
    if is_random_uuid(id) {
        random_uuid_is_plain(id);
    }
    if address::is_plain_query(id) {
        plain_text_takes_one_byte_each(id);
    }
}

/// Steps are shown as they are.
pub proof fn uploads_are_shown_as_they_are(read: ReadStep, asset: AssetStep, collect: CollectStep)
    ensures
        read matches ReadStep::Wait { upload, seconds } ==> read@ == (ReadStepView::Wait {
            upload: upload@,
            seconds,
        }),
        read matches ReadStep::Post { upload, request } ==> read@ == (ReadStepView::Post {
            upload: upload@,
            request: request@,
        }),
        read matches ReadStep::Finished(step) ==> read@ == ReadStepView::Finished(step@),
        read matches ReadStep::Failed(error) ==> read@ == ReadStepView::Failed(error),
        asset matches AssetStep::ReadId(reading) ==> asset@ == AssetStepView::ReadId(reading@),
        asset matches AssetStep::Failed(error) ==> asset@ == AssetStepView::Failed(error),
        collect matches CollectStep::Pending(collection) ==> collect@ == CollectStepView::Pending(
            collection@,
        ),
        collect matches CollectStep::Complete(file_id) ==> collect@ == CollectStepView::Complete(
            file_id@,
        ),
        collect matches CollectStep::Failed(error) ==> collect@ == CollectStepView::Failed(error),
{
}

} // verus!
