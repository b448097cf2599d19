//! Requests that the library wants sent.

use vstd::prelude::*;
use vstd::string::*;
use crate::text;

verus! {

/// How a request asks.
#[derive(Clone, Copy, Debug, PartialEq, Eq, Structural)]
pub enum Method {
    /// Asks for a resource.
    Get,
    /// Hands a resource in.
    Post,
    /// Puts a resource in a place.
    Put,
}

/// What a request carries.
#[derive(Debug)]
pub enum Payload {
    /// Nothing.
    Empty,
    /// A JSON object whose members are strings.
    Json(Vec<(String, String)>),
    /// Bytes as they are.
    Bytes(Vec<u8>),
}

/// A request, but for the headers that every request of a client has.
#[derive(Debug)]
pub struct Request {
    /// How it asks.
    pub method: Method,
    /// Where it goes.
    pub url: String,
    /// Its own headers, by name and value.
    pub headers: Vec<(String, String)>,
    /// What it carries.
    pub payload: Payload,
}

/// The view of a [`Payload`].
#[verifier::ext_equal]
pub enum PayloadView {
    /// Nothing.
    Empty,
    /// A JSON object whose members are strings.
    Json(Seq<(Seq<char>, Seq<char>)>),
    /// Bytes as they are.
    Bytes(Seq<u8>),
}

/// The view of a [`Request`].
#[verifier::ext_equal]
pub struct RequestView {
    /// How it asks.
    pub method: Method,
    /// Where it goes.
    pub url: Seq<char>,
    /// Its own headers, by name and value.
    pub headers: Seq<(Seq<char>, Seq<char>)>,
    /// What it carries.
    pub payload: PayloadView,
}

/// Views both texts of each pair.
pub open spec fn pairs(list: Seq<(String, String)>) -> Seq<(Seq<char>, Seq<char>)> {
    Seq::new(list.len(), |i: int| (list[i].0@, list[i].1@))
}

impl View for Payload {
    type V = PayloadView;

    open spec fn view(&self) -> PayloadView {
        match *self {
            Payload::Empty => PayloadView::Empty,
            Payload::Json(members) => PayloadView::Json(pairs(members@)),
            Payload::Bytes(bytes) => PayloadView::Bytes(bytes@),
        }
    }
}

impl View for Request {
    type V = RequestView;

    open spec fn view(&self) -> RequestView {
        RequestView {
            method: self.method,
            url: self.url@,
            headers: pairs(self.headers@),
            payload: self.payload@,
        }
    }
}

/// True of the statuses with which GitHub answers a request that the token gives no right to:
/// without a valid token, not allowed, and not shown to be there.
pub open spec fn denies_access(status: u16) -> bool {
    status == 401 || status == 403 || status == 404
}

/// True where a response with this status says that the token gives no right to the request.
pub fn is_denied(status: u16) -> (yes: bool)
    ensures
        yes == denies_access(status),
{
    status == 401 || status == 403 || status == 404
}

/// Views each request.
pub open spec fn requests_view(requests: Seq<Request>) -> Seq<RequestView> {
    Seq::new(requests.len(), |i: int| requests[i]@)
}

/// Appends a pair of texts to a list.
pub(crate) fn push_pair(list: &mut Vec<(String, String)>, name: &str, value: &str)
    ensures
        pairs(final(list)@) == pairs(old(list)@).push((name@, value@)),
{
    let ghost before = pairs(list@);
    list.push((name.to_owned(), value.to_owned()));
    assert(pairs(list@) =~= before.push((name@, value@)));
}

/// A list of one pair of texts.
pub(crate) fn one_pair(name: &str, value: &str) -> (list: Vec<(String, String)>)
    ensures
        pairs(list@) == seq![(name@, value@)],
{
    let mut list: Vec<(String, String)> = Vec::new();
    push_pair(&mut list, name, value);
    assert(pairs(list@) =~= seq![(name@, value@)]);
    list
}

/// An empty list of pairs of texts.
pub(crate) fn no_pairs() -> (list: Vec<(String, String)>)
    ensures
        pairs(list@) == Seq::<(Seq<char>, Seq<char>)>::empty(),
{
    let list: Vec<(String, String)> = Vec::new();
    assert(pairs(list@) =~= Seq::<(Seq<char>, Seq<char>)>::empty());
    list
}

/// The address of a repository in the GitHub API.
pub open spec fn repo_url(repo: Seq<char>) -> Seq<char> {
    "https://api.github.com/repos/"@ + repo
}

/// Writes the address of a repository, followed by `rest`.
pub(crate) fn repo_address(repo: &str, rest: &str) -> (url: String)
    ensures
        url@ == repo_url(repo@) + rest@,
{
    "https://api.github.com/repos/".to_owned().concat(repo).concat(rest)
}

/// Asks for the release of `repo` under `tag`.
pub open spec fn lookup_release(repo: Seq<char>, tag: Seq<char>) -> RequestView {
    RequestView {
        method: Method::Get,
        url: repo_url(repo) + "/releases/tags/"@ + tag,
        headers: seq![],
        payload: PayloadView::Empty,
    }
}

/// Makes a release of `repo` under `tag`.
pub open spec fn create_release(repo: Seq<char>, tag: Seq<char>) -> RequestView {
    RequestView {
        method: Method::Post,
        url: repo_url(repo) + "/releases"@,
        headers: seq![],
        payload: PayloadView::Json(seq![("tag_name"@, tag)]),
    }
}

/// Adds a commit to `repo`, for the case that it has none.
pub open spec fn add_commit(repo: Seq<char>) -> RequestView {
    RequestView {
        method: Method::Put,
        url: repo_url(repo) + "/contents/__no_empty_repo__"@,
        headers: seq![],
        payload: PayloadView::Json(
            seq![
                ("message"@, "add a commit to allow creation of a release."@),
                ("content"@, ""@),
                ("sha254"@, ""@),
            ],
        ),
    }
}

/// Hands in one chunk.
pub open spec fn post_chunk(url: Seq<char>, chunk: Seq<u8>) -> RequestView {
    RequestView {
        method: Method::Post,
        url,
        headers: seq![("content-type"@, "application/octet-stream"@)],
        payload: PayloadView::Bytes(chunk),
    }
}

/// Asks for the chunk of `repo` whose number is `asset_id`.
pub open spec fn get_chunk(repo: Seq<char>, asset_id: u32) -> RequestView {
    RequestView {
        method: Method::Get,
        url: repo_url(repo) + "/releases/assets/"@ + text::decimal_digits(asset_id as nat),
        headers: seq![("accept"@, "application/octet-stream"@)],
        payload: PayloadView::Empty,
    }
}

/// The request of [`lookup_release`].
pub fn lookup_release_request(repo: &str, tag: &str) -> (request: Request)
    ensures
        request@ == lookup_release(repo@, tag@),
{
    Request {
        method: Method::Get,
        url: repo_address(repo, "/releases/tags/").concat(tag),
        headers: no_pairs(),
        payload: Payload::Empty,
    }
}

/// The request of [`create_release`].
pub fn create_release_request(repo: &str, tag: &str) -> (request: Request)
    ensures
        request@ == create_release(repo@, tag@),
{
    Request {
        method: Method::Post,
        url: repo_address(repo, "/releases"),
        headers: no_pairs(),
        payload: Payload::Json(one_pair("tag_name", tag)),
    }
}

/// The request of [`add_commit`].
pub fn add_commit_request(repo: &str) -> (request: Request)
    ensures
        request@ == add_commit(repo@),
{
    let mut members = one_pair("message", "add a commit to allow creation of a release.");
    push_pair(&mut members, "content", "");
    push_pair(&mut members, "sha254", "");
    assert(pairs(members@) =~= seq![
        ("message"@, "add a commit to allow creation of a release."@),
        ("content"@, ""@),
        ("sha254"@, ""@),
    ]);
    Request {
        method: Method::Put,
        url: repo_address(repo, "/contents/__no_empty_repo__"),
        headers: no_pairs(),
        payload: Payload::Json(members),
    }
}

/// The request of [`post_chunk`].
pub fn post_chunk_request(url: String, chunk: Vec<u8>) -> (request: Request)
    ensures
        request@ == post_chunk(url@, chunk@),
{
    Request {
        method: Method::Post,
        url,
        headers: one_pair("content-type", "application/octet-stream"),
        payload: Payload::Bytes(chunk),
    }
}

/// The request of [`get_chunk`].
pub fn get_chunk_request(repo: &str, asset_id: u32) -> (request: Request)
    ensures
        request@ == get_chunk(repo@, asset_id),
{
    let number = text::decimal(asset_id as u64);
    Request {
        method: Method::Get,
        url: repo_address(repo, "/releases/assets/").concat(number.as_str()),
        headers: one_pair("accept", "application/octet-stream"),
        payload: Payload::Empty,
    }
}

/// A request is shown as it is: its view has its method, its address, each of its headers in their
/// order, and what it carries, each member or byte of it in its place.
pub proof fn requests_are_shown_as_they_are(request: Request, requests: Seq<Request>, i: int)
    requires
        0 <= i < requests.len(),
    ensures
        request@.method == request.method,
        request@.url == request.url@,
        request@.headers.len() == request.headers@.len(),
        forall|j: int|
            0 <= j < request.headers@.len() ==> #[trigger] request@.headers[j] == (
                request.headers@[j].0@,
                request.headers@[j].1@,
            ),
        request.payload is Empty <==> request@.payload is Empty,
        request.payload matches Payload::Bytes(bytes) ==> request@.payload == PayloadView::Bytes(
            bytes@,
        ),
        request.payload matches Payload::Json(members) ==> {
            &&& request@.payload matches PayloadView::Json(shown)
            &&& shown.len() == members@.len()
            &&& forall|j: int|
                0 <= j < shown.len() ==> #[trigger] shown[j] == (members@[j].0@, members@[j].1@)
        },
        requests_view(requests).len() == requests.len(),
        requests_view(requests)[i] == requests[i]@,
{
}

/// The release is looked up under its tag in its repository, with a bare request; the releases of a
/// repository under different tags are looked up at different addresses.
pub proof fn lookup_names_repository_and_tag(repo: Seq<char>, tag: Seq<char>, other: Seq<char>)
    ensures
        lookup_release(repo, tag).method == Method::Get,
        lookup_release(repo, tag).url == "https://api.github.com/repos/"@ + repo
            + "/releases/tags/"@ + tag,
        lookup_release(repo, tag).headers.len() == 0,
        lookup_release(repo, tag).payload is Empty,
        tag != other ==> lookup_release(repo, tag).url != lookup_release(repo, other).url,
{
    let front = "https://api.github.com/repos/"@ + repo + "/releases/tags/"@;
    assert((front + tag).skip(front.len() as int) =~= tag);
    assert((front + other).skip(front.len() as int) =~= other);
}

/// A release is made among the releases of its repository, and what is sent is the tag alone.
pub proof fn creation_sends_the_tag(repo: Seq<char>, tag: Seq<char>, other: Seq<char>)
    ensures
        create_release(repo, tag).method == Method::Post,
        create_release(repo, tag).url == "https://api.github.com/repos/"@ + repo + "/releases"@,
        create_release(repo, tag).headers.len() == 0,
        create_release(repo, tag).payload matches PayloadView::Json(members) && members.len() == 1
            && members[0] == ("tag_name"@, tag),
        tag != other ==> create_release(repo, tag).payload != create_release(repo, other).payload,
{
    if create_release(repo, tag).payload == create_release(repo, other).payload {
        assert(create_release(repo, tag).payload->Json_0[0] == create_release(
            repo,
            other,
        ).payload->Json_0[0]);
    }
}

/// The commit is an empty file of a fixed name in the repository.
pub proof fn commit_goes_to_the_repository(repo: Seq<char>)
    ensures
        add_commit(repo).method == Method::Put,
        add_commit(repo).url == "https://api.github.com/repos/"@ + repo
            + "/contents/__no_empty_repo__"@,
        add_commit(repo).headers.len() == 0,
        add_commit(repo).payload matches PayloadView::Json(members) && members.len() == 3
            && members[0] == ("message"@, "add a commit to allow creation of a release."@) && members[1]
            == ("content"@, ""@) && members[2] == ("sha254"@, ""@),
{
}

/// A chunk is posted to the address that is given for it, with all its bytes and nothing else.
pub proof fn chunk_is_posted_whole(url: Seq<char>, chunk: Seq<u8>)
    ensures
        post_chunk(url, chunk).method == Method::Post,
        post_chunk(url, chunk).url == url,
        post_chunk(url, chunk).headers.len() == 1,
        post_chunk(url, chunk).headers[0] == ("content-type"@, "application/octet-stream"@),
        post_chunk(url, chunk).payload == PayloadView::Bytes(chunk),
{
}

/// True where `url` is the address of asset number `asset_id` of `repo`.
pub open spec fn is_asset_url(url: Seq<char>, repo: Seq<char>, asset_id: u32) -> bool {
    exists|number: Seq<char>| #[trigger]
        text::is_numeral(number, asset_id as nat) && url == "https://api.github.com/repos/"@ + repo
            + "/releases/assets/"@ + number
}

/// The request for a chunk names exactly its asset: its number in decimal, in its repository. It asks
/// for bytes and carries nothing, and chunks with different numbers are asked for at different
/// addresses.
pub proof fn chunk_is_asked_for_by_its_number(repo: Seq<char>, a: u32, b: u32)
    ensures
        get_chunk(repo, a).method == Method::Get,
        is_asset_url(get_chunk(repo, a).url, repo, a),
        get_chunk(repo, a).headers.len() == 1,
        get_chunk(repo, a).headers[0] == ("accept"@, "application/octet-stream"@),
        get_chunk(repo, a).payload is Empty,
        a != b ==> get_chunk(repo, a).url != get_chunk(repo, b).url,
{
    let front = "https://api.github.com/repos/"@ + repo + "/releases/assets/"@;
    text::decimal_digits_say_the_number(a as nat);
    text::decimal_digits_say_the_number(b as nat);
    let da = text::decimal_digits(a as nat);
    let db = text::decimal_digits(b as nat);
    assert(get_chunk(repo, a).url =~= front + da);
    assert(get_chunk(repo, b).url =~= front + db);
    assert((front + da).skip(front.len() as int) =~= da);
    assert((front + db).skip(front.len() as int) =~= db);
}

/// Access is denied by exactly three statuses.
pub proof fn three_statuses_deny_access(status: u16)
    ensures
        denies_access(401),
        denies_access(403),
        denies_access(404),
        denies_access(status) ==> 401 <= status <= 404 && status != 402,
{
}

} // verus!
