//! Downloading a file.
//!
//! All chunks are asked for at once. Their responses are taken in the order of the chunks: first
//! the status of a response, then its body.

use reqwest::Error as NetworkError;
use vstd::prelude::*;
use vstd::string::*;
use vstd::utf8::*;
use crate::error::Error;
use crate::file_id::{FileId, FileIdView};
use crate::framing;
use crate::request;
use crate::request::{Method, Request, RequestView};

verus! {

/// A download that waits for the response about the next chunk.
#[derive(Debug)]
pub struct Download {
    received: Vec<u8>,
    remaining: usize,
}

/// A download that waits for the body of a response.
#[derive(Debug)]
pub struct BodyDownload {
    received: Vec<u8>,
    remaining: usize,
}

/// What a download waits for, or how it ended.
#[derive(Debug)]
pub enum DownloadStep {
    /// The status of the response about the next chunk.
    AwaitResponse(Download),
    /// The body of that response.
    ReadBody(BodyDownload),
    /// The file is there.
    Complete {
        /// What it holds.
        content: Vec<u8>,
        /// The name under which it was stored.
        file_name: String,
    },
    /// The download ended with this error.
    Failed(Error),
}

/// The view of a [`Download`] and of a [`BodyDownload`].
#[verifier::ext_equal]
pub struct DownloadView {
    /// The chunks that have come, one after the other.
    pub received: Seq<u8>,
    /// The number of chunks that have not come.
    pub remaining: nat,
}

/// The view of a [`DownloadStep`].
#[verifier::ext_equal]
pub enum DownloadStepView {
    /// Waits for a status.
    AwaitResponse(DownloadView),
    /// Waits for a body.
    ReadBody(DownloadView),
    /// The file is there.
    Complete {
        /// What it holds.
        content: Seq<u8>,
        /// The name under which it was stored.
        file_name: Seq<char>,
    },
    /// Ended with this error.
    Failed(Error),
}

impl View for Download {
    type V = DownloadView;

    closed spec fn view(&self) -> DownloadView {
        DownloadView { received: self.received@, remaining: self.remaining as nat }
    }
}

impl View for BodyDownload {
    type V = DownloadView;

    closed spec fn view(&self) -> DownloadView {
        DownloadView { received: self.received@, remaining: self.remaining as nat }
    }
}

impl View for DownloadStep {
    type V = DownloadStepView;

    open spec fn view(&self) -> DownloadStepView {
        match *self {
            DownloadStep::AwaitResponse(download) => DownloadStepView::AwaitResponse(download@),
            DownloadStep::ReadBody(download) => DownloadStepView::ReadBody(download@),
            DownloadStep::Complete { content, file_name } => DownloadStepView::Complete {
                content: content@,
                file_name: file_name@,
            },
            DownloadStep::Failed(error) => DownloadStepView::Failed(error),
        }
    }
}

/// The requests for the chunks of a file, in their order.
pub open spec fn chunk_requests(file_id: FileIdView) -> Seq<RequestView> {
    Seq::new(
        file_id.asset_ids.len(),
        |i: int| request::get_chunk(file_id.repo, file_id.asset_ids[i]),
    )
}

/// The step with `received` come and `remaining` chunks to come.
pub open spec fn next_step(received: Seq<u8>, remaining: nat) -> DownloadStepView {
    if remaining == 0 {
        DownloadStepView::Complete {
            content: framing::unpacked_content(received),
            file_name: framing::unpacked_name(received),
        }
    } else {
        DownloadStepView::AwaitResponse(DownloadView { received, remaining })
    }
}

/// The step after a response: its status, or why there is none.
pub open spec fn after_response(
    download: DownloadView,
    response: Result<u16, NetworkError>,
) -> DownloadStepView {
    match response {
        Err(error) => DownloadStepView::Failed(Error::Reqwest(error)),
        Ok(status) => if request::denies_access(status) {
            DownloadStepView::Failed(Error::Unauthorized)
        } else {
            DownloadStepView::ReadBody(download)
        },
    }
}

/// The step after a body: its bytes, or why it could not be read.
pub open spec fn after_body(
    download: DownloadView,
    body: Result<Seq<u8>, NetworkError>,
) -> DownloadStepView {
    match body {
        Err(error) => DownloadStepView::Failed(Error::Reqwest(error)),
        Ok(chunk) => next_step(
            download.received + chunk,
            (download.remaining - 1) as nat,
        ),
    }
}

/// Views the bytes of a body.
pub open spec fn body_view(body: Result<Vec<u8>, NetworkError>) -> Result<Seq<u8>, NetworkError> {
    match body {
        Ok(chunk) => Ok(chunk@),
        Err(error) => Err(error),
    }
}

/// Goes on with `received` come and `remaining` chunks to come.
fn go_on(received: Vec<u8>, remaining: usize) -> (step: DownloadStep)
    ensures
        step@ == next_step(received@, remaining as nat),
{
    if remaining == 0 {
        let (content, file_name) = framing::unpack(received);
        DownloadStep::Complete { content, file_name }
    } else {
        DownloadStep::AwaitResponse(Download { received, remaining })
    }
}

impl FileId {
    /// Starts the download of the file: the requests to send, one for each chunk, and what the
    /// download waits for first.
    ///
    /// The token that goes with the requests must have read access to the repository.
    ///
    /// # Errors
    /// The download ends with an [`Error::Unauthorized`] if the token does not have read access to
    /// the repository or if the file doesn't exist, and with an [`Error::Reqwest`] if there was a
    /// network error: see [`Download::on_response`].
    pub fn get(&self) -> (start: (Vec<Request>, DownloadStep))
        ensures
            request::requests_view(start.0@) == chunk_requests(self@),
            start.1@ == next_step(Seq::empty(), self@.asset_ids.len()),
    {
        let asset_ids = self.asset_ids();
        let mut requests: Vec<Request> = Vec::new();
        let mut i: usize = 0;
        while i < asset_ids.len()
            invariant
                asset_ids@ == self@.asset_ids,
                i <= asset_ids@.len(),
                requests@.len() == i,
                forall|j: int|
                    0 <= j < i ==> (#[trigger] requests@[j])@ == request::get_chunk(
                        self@.repo,
                        self@.asset_ids[j],
                    ),
            decreases asset_ids@.len() - i,
        {
            requests.push(request::get_chunk_request(self.repo(), asset_ids[i]));
            i = i + 1;
        }
        assert(request::requests_view(requests@) =~= chunk_requests(self@));
        (requests, go_on(Vec::new(), asset_ids.len()))
    }
}

impl Download {
    /// A chunk is still to come.
    #[verifier::type_invariant]
    spec fn is_waiting(self) -> bool {
        self.remaining > 0
    }

    /// Goes on with the response about the next chunk: its status, or why there is none.
    pub fn on_response(self, response: Result<u16, NetworkError>) -> (step: DownloadStep)
        ensures
            step@ == after_response(self@, response),
    {
        match response {
            Err(error) => DownloadStep::Failed(Error::from(error)),
            Ok(status) => {
                if request::is_denied(status) {
                    return DownloadStep::Failed(Error::Unauthorized);
                }
                proof {
                    use_type_invariant(&self);
                }
                DownloadStep::ReadBody(
                    BodyDownload { received: self.received, remaining: self.remaining },
                )
            },
        }
    }
}

impl BodyDownload {
    /// A chunk is still to come.
    #[verifier::type_invariant]
    spec fn is_waiting(self) -> bool {
        self.remaining > 0
    }

    /// Goes on with the body of the response: its bytes, or why it could not be read.
    pub fn on_body(self, body: Result<Vec<u8>, NetworkError>) -> (step: DownloadStep)
        ensures
            step@ == after_body(self@, body_view(body)),
    {
        match body {
            Err(error) => DownloadStep::Failed(Error::from(error)),
            Ok(chunk) => {
                proof {
                    use_type_invariant(&self);
                }
                let mut chunk = chunk;
                let mut received = self.received;
                received.append(&mut chunk);
                go_on(received, self.remaining - 1)
            },
        }
    }
}

/// What came back for one chunk: the status, then the body.
pub struct ChunkAnswer {
    /// The status of the response, or why there is none.
    pub response: Result<u16, NetworkError>,
    /// The body, or why it could not be read.
    pub body: Result<Seq<u8>, NetworkError>,
}

/// The step after the answer to one chunk.
pub open spec fn after_chunk(download: DownloadView, answer: ChunkAnswer) -> DownloadStepView {
    match after_response(download, answer.response) {
        DownloadStepView::ReadBody(download) => after_body(download, answer.body),
        ended => ended,
    }
}

/// The download of `chunks` chunks after `answers`, from the first chunk on.
pub open spec fn downloaded(chunks: nat, answers: Seq<ChunkAnswer>) -> DownloadStepView
    decreases answers.len(),
{
    if answers.len() == 0 {
        next_step(Seq::empty(), chunks)
    } else {
        match downloaded(chunks, answers.drop_last()) {
            DownloadStepView::AwaitResponse(download) => after_chunk(download, answers.last()),
            ended => ended,
        }
    }
}

/// True where `answer` brings `chunk`.
pub open spec fn brings(answer: ChunkAnswer, chunk: Seq<u8>) -> bool {
    &&& answer.response matches Ok(status) && !request::denies_access(status)
    &&& answer.body == Ok::<Seq<u8>, NetworkError>(chunk)
}

/// Why `answer` brings no chunk: a failed request or an unreadable body is the network's error,
/// and a status that denies access means that the file is not there for this token.
pub open spec fn refusal(answer: ChunkAnswer) -> Option<Error> {
    match answer.response {
        Err(error) => Some(Error::Reqwest(error)),
        Ok(status) => if request::denies_access(status) {
            Some(Error::Unauthorized)
        } else {
            match answer.body {
                Err(error) => Some(Error::Reqwest(error)),
                Ok(_) => None,
            }
        },
    }
}

/// Chunks that came are kept in their order; once all have come, the file is what their bytes,
/// one after the other, unpack to.
pub proof fn download_joins_the_chunks(
    chunks: nat,
    bodies: Seq<Seq<u8>>,
    answers: Seq<ChunkAnswer>,
)
    requires
        answers.len() == bodies.len() <= chunks,
        forall|i: int| 0 <= i < answers.len() ==> brings(#[trigger] answers[i], bodies[i]),
    ensures
        downloaded(chunks, answers) == next_step(
            framing::joined(bodies),
            (chunks - bodies.len()) as nat,
        ),
    decreases answers.len(),
{
    if answers.len() > 0 {
        download_joins_the_chunks(chunks, bodies.drop_last(), answers.drop_last());
        assert(brings(answers[answers.len() - 1], bodies[bodies.len() - 1]));
    }
}

/// The first chunk that does not come ends the download, with the error that its answer means,
/// whatever became of the chunks after it: where the token gives no right to read, with
/// [`Error::Unauthorized`].
pub proof fn first_refusal_ends_the_download(
    chunks: nat,
    bodies: Seq<Seq<u8>>,
    answers: Seq<ChunkAnswer>,
)
    requires
        bodies.len() < chunks,
        bodies.len() < answers.len(),
        forall|i: int| 0 <= i < bodies.len() ==> brings(#[trigger] answers[i], bodies[i]),
        refusal(answers[bodies.len() as int]) is Some,
    ensures
        downloaded(chunks, answers) == DownloadStepView::Failed(
            refusal(answers[bodies.len() as int])->Some_0,
        ),
        answers[bodies.len() as int].response matches Ok(status) && request::denies_access(status)
            ==> downloaded(chunks, answers) == DownloadStepView::Failed(Error::Unauthorized),
    decreases answers.len(),
{
    let front = answers.drop_last();
    if answers.len() == bodies.len() + 1 {
        download_joins_the_chunks(chunks, bodies, front);
    } else {
        first_refusal_ends_the_download(chunks, bodies, front);
    }
}

/// A record leads to one request for each of its numbers, in their order, each for that asset of the
/// repository of the record.
pub proof fn every_number_is_asked_for(file_id: FileIdView, i: int)
    requires
        0 <= i < file_id.asset_ids.len(),
    ensures
        chunk_requests(file_id).len() == file_id.asset_ids.len(),
        chunk_requests(file_id)[i].method == Method::Get,
        request::is_asset_url(chunk_requests(file_id)[i].url, file_id.repo, file_id.asset_ids[i]),
        chunk_requests(file_id)[i].headers.len() == 1,
        chunk_requests(file_id)[i].headers[0] == ("accept"@, "application/octet-stream"@),
        chunk_requests(file_id)[i].payload is Empty,
{
    request::chunk_is_asked_for_by_its_number(file_id.repo, file_id.asset_ids[i], 0);
}

/// The status of a response decides alone: 401, 403 and 404 end the download for want of access, every
/// other status leads to the body and changes nothing, and a failed request is the network's error.
pub proof fn status_decides_the_download(download: DownloadView, status: u16, error: NetworkError)
    ensures
        status == 401 || status == 403 || status == 404 ==> after_response(download, Ok(status))
            == DownloadStepView::Failed(Error::Unauthorized),
        status != 401 && status != 403 && status != 404 ==> after_response(download, Ok(status))
            == DownloadStepView::ReadBody(download),
        after_response(download, Err(error)) == DownloadStepView::Failed(Error::Reqwest(error)),
{
}

/// A body is put behind what has come, whole, and counts as one chunk; while chunks are to come the
/// download goes on with the next response, and an unreadable body is the network's error.
pub proof fn body_is_appended(download: DownloadView, chunk: Seq<u8>, error: NetworkError)
    requires
        download.remaining > 1,
    ensures
        after_body(download, Ok(chunk)) == DownloadStepView::AwaitResponse(
            DownloadView {
                received: download.received + chunk,
                remaining: (download.remaining - 1) as nat,
            },
        ),
        after_body(download, Err(error)) == DownloadStepView::Failed(Error::Reqwest(error)),
        body_view(Err(error)) == Err::<Seq<u8>, NetworkError>(error),
{
}

/// With the last body the download ends: what came before the first question mark is the name, in
/// UTF-8, and all that came behind it is the content, wherever the chunks were cut. So it does at once
/// where there is no chunk, with nothing.
pub proof fn last_body_completes_the_file(
    received: Seq<u8>,
    chunk: Seq<u8>,
    name: Seq<char>,
    content: Seq<u8>,
    error: NetworkError,
)
    requires
        received + chunk == encode_utf8(name) + seq![63u8] + content,
        !name.contains('?'),
    ensures
        after_body(DownloadView { received, remaining: 1 }, Ok(chunk)) == (DownloadStepView::Complete {
            content,
            file_name: name,
        }),
        after_body(DownloadView { received, remaining: 1 }, Err(error)) == DownloadStepView::Failed(
            Error::Reqwest(error),
        ),
        next_step(Seq::empty(), 0) == (DownloadStepView::Complete {
            content: Seq::empty(),
            file_name: Seq::empty(),
        }),
{
    framing::name_comes_before_the_content(name, 0, content);
    framing::unpack_reads_back(name, content);
    framing::first_question_mark_parts_the_bytes(Seq::empty(), Seq::empty());
    assert(received + chunk == framing::name_header(name) + content);
    assert(framing::unpacked_name(Seq::empty()) =~= Seq::<char>::empty());
}

/// A download starts with nothing received and all chunks to come.
pub proof fn download_starts_with_the_first_chunk(chunks: nat)
    requires
        chunks > 0,
    ensures
        next_step(Seq::empty(), chunks) == DownloadStepView::AwaitResponse(
            DownloadView { received: Seq::empty(), remaining: chunks },
        ),
{
}

/// Steps are shown as they are.
pub proof fn downloads_are_shown_as_they_are(step: DownloadStep, body: Vec<u8>)
    ensures
        step matches DownloadStep::Complete { content, file_name } ==> step@ == (
        DownloadStepView::Complete { content: content@, file_name: file_name@ }),
        step matches DownloadStep::Failed(error) ==> step@ == DownloadStepView::Failed(error),
        step matches DownloadStep::AwaitResponse(download) ==> step@ == DownloadStepView::AwaitResponse(
            download@,
        ),
        step matches DownloadStep::ReadBody(download) ==> step@ == DownloadStepView::ReadBody(download@),
        body_view(Ok(body)) == Ok::<Seq<u8>, NetworkError>(body@),
{
}

} // verus!
