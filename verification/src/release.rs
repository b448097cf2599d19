//! Finding the release that files are put in, or making it.
//!
//! The release is looked up by its tag. Where that does not give one, it is made; where that
//! fails too, the repository may be without a commit: one is added, and the release is made
//! again.

use reqwest::Error as NetworkError;
use vstd::prelude::*;
use vstd::string::*;
use crate::address;
use crate::error::Error;
use crate::request;
use crate::request::{Method, PayloadView, Request, RequestView};
use crate::text;

verus! {

/// What GitHub answers when asked for a release, as far as it matters here.
#[derive(Debug)]
pub struct ReleaseResponse {
    /// Where new files go, with a template at its end.
    pub upload_url: Option<String>,
    /// Where the files are listed.
    pub assets_url: Option<String>,
}

/// The addresses of a release.
#[derive(Debug)]
pub struct ReleaseUrls {
    /// Where the files are listed.
    pub assets_url: String,
    /// Where new files go.
    pub upload_url: String,
}

/// The addresses that a response gives.
#[derive(Debug)]
pub enum ReleaseLinks {
    /// The response lacks an address: it is about no release.
    Missing,
    /// Both addresses are there and can be used.
    Usable(ReleaseUrls),
    /// Both addresses are there, and one of them is no URL or does not fit.
    Unusable,
}

/// Which request a search waits for.
#[derive(Clone, Copy, Debug, PartialEq, Eq, Structural)]
pub enum Attempt {
    /// The release was looked up.
    Lookup,
    /// The release was made.
    Create,
    /// The release was made after a commit was added.
    CreateAgain,
}

/// A search for a release that waits for an answer about it.
#[derive(Debug)]
pub struct ReleaseSearch {
    repo: String,
    tag: String,
    attempt: Attempt,
}

/// A search for a release that waits for a commit to be added.
#[derive(Debug)]
pub struct CommitSearch {
    repo: String,
    tag: String,
}

/// What a search wants done next, or how it ended.
#[derive(Debug)]
pub enum ReleaseStep {
    /// Send the request; the search goes on with the release in the answer.
    Ask {
        /// The search that takes the answer.
        search: ReleaseSearch,
        /// What to send.
        request: Request,
    },
    /// Send the request; the search goes on once the answer was read.
    AddCommit {
        /// The search that goes on.
        pending: CommitSearch,
        /// What to send.
        request: Request,
    },
    /// The search ended with this release.
    Found(ReleaseUrls),
    /// The search ended with this error.
    Failed(Error),
}

/// The view of a [`ReleaseResponse`].
pub struct ReleaseResponseView {
    /// Where new files go.
    pub upload_url: Option<Seq<char>>,
    /// Where the files are listed.
    pub assets_url: Option<Seq<char>>,
}

/// The view of [`ReleaseUrls`].
pub struct ReleaseUrlsView {
    /// Where the files are listed.
    pub assets_url: Seq<char>,
    /// Where new files go.
    pub upload_url: Seq<char>,
}

/// The view of [`ReleaseLinks`].
pub enum ReleaseLinksView {
    /// The response lacks an address.
    Missing,
    /// Both addresses can be used.
    Usable(ReleaseUrlsView),
    /// One of the addresses cannot be used.
    Unusable,
}

/// The view of a [`ReleaseSearch`].
pub struct ReleaseSearchView {
    /// The repository.
    pub repo: Seq<char>,
    /// The tag of the release.
    pub tag: Seq<char>,
    /// Which request it waits for.
    pub attempt: Attempt,
}

/// The view of a [`CommitSearch`].
pub struct CommitSearchView {
    /// The repository.
    pub repo: Seq<char>,
    /// The tag of the release.
    pub tag: Seq<char>,
}

/// The view of a [`ReleaseStep`].
pub enum ReleaseStepView {
    /// Send the request and go on with the release in the answer.
    Ask {
        /// The search that takes the answer.
        search: ReleaseSearchView,
        /// What to send.
        request: RequestView,
    },
    /// Send the request and go on.
    AddCommit {
        /// The search that goes on.
        pending: CommitSearchView,
        /// What to send.
        request: RequestView,
    },
    /// Ended with this release.
    Found(ReleaseUrlsView),
    /// Ended with this error.
    Failed(Error),
}

impl View for ReleaseResponse {
    type V = ReleaseResponseView;

    open spec fn view(&self) -> ReleaseResponseView {
        ReleaseResponseView {
            upload_url: text::option_text(self.upload_url),
            assets_url: text::option_text(self.assets_url),
        }
    }
}

impl View for ReleaseUrls {
    type V = ReleaseUrlsView;

    open spec fn view(&self) -> ReleaseUrlsView {
        ReleaseUrlsView { assets_url: self.assets_url@, upload_url: self.upload_url@ }
    }
}

impl View for ReleaseLinks {
    type V = ReleaseLinksView;

    open spec fn view(&self) -> ReleaseLinksView {
        match *self {
            ReleaseLinks::Missing => ReleaseLinksView::Missing,
            ReleaseLinks::Usable(urls) => ReleaseLinksView::Usable(urls@),
            ReleaseLinks::Unusable => ReleaseLinksView::Unusable,
        }
    }
}

impl View for ReleaseSearch {
    type V = ReleaseSearchView;

    closed spec fn view(&self) -> ReleaseSearchView {
        ReleaseSearchView { repo: self.repo@, tag: self.tag@, attempt: self.attempt }
    }
}

impl View for CommitSearch {
    type V = CommitSearchView;

    closed spec fn view(&self) -> CommitSearchView {
        CommitSearchView { repo: self.repo@, tag: self.tag@ }
    }
}

impl View for ReleaseStep {
    type V = ReleaseStepView;

    open spec fn view(&self) -> ReleaseStepView {
        match *self {
            ReleaseStep::Ask { search, request } => ReleaseStepView::Ask {
                search: search@,
                request: request@,
            },
            ReleaseStep::AddCommit { pending, request } => ReleaseStepView::AddCommit {
                pending: pending@,
                request: request@,
            },
            ReleaseStep::Found(urls) => ReleaseStepView::Found(urls@),
            ReleaseStep::Failed(error) => ReleaseStepView::Failed(error),
        }
    }
}

/// The address that `url` stands for, where it is one that can be used.
pub open spec fn usable_url(url: Seq<char>) -> Option<Seq<char>> {
    if address::can_be_cleaned(url) && address::clean_url(url) is Ok {
        Some(address::clean_url(url)->Ok_0)
    } else {
        None
    }
}

/// The addresses that a response gives.
pub open spec fn links_of(response: ReleaseResponseView) -> ReleaseLinksView {
    match (response.assets_url, response.upload_url) {
        (Some(assets_url), Some(upload_url)) => match (
            usable_url(assets_url),
            usable_url(upload_url),
        ) {
            (Some(assets_url), Some(upload_url)) => ReleaseLinksView::Usable(
                ReleaseUrlsView { assets_url, upload_url },
            ),
            _ => ReleaseLinksView::Unusable,
        },
        _ => ReleaseLinksView::Missing,
    }
}

/// The first step of a search: look the release up.
pub open spec fn search_started(repo: Seq<char>, tag: Seq<char>) -> ReleaseStepView {
    ReleaseStepView::Ask {
        search: ReleaseSearchView { repo, tag, attempt: Attempt::Lookup },
        request: request::lookup_release(repo, tag),
    }
}

/// The step that makes the release.
pub open spec fn create_step(repo: Seq<char>, tag: Seq<char>, attempt: Attempt) -> ReleaseStepView {
    ReleaseStepView::Ask {
        search: ReleaseSearchView { repo, tag, attempt },
        request: request::create_release(repo, tag),
    }
}

/// The step after an attempt that gave no release.
pub open spec fn after_no_release(search: ReleaseSearchView) -> ReleaseStepView {
    match search.attempt {
        Attempt::Lookup => create_step(search.repo, search.tag, Attempt::Create),
        Attempt::Create => ReleaseStepView::AddCommit {
            pending: CommitSearchView { repo: search.repo, tag: search.tag },
            request: request::add_commit(search.repo),
        },
        Attempt::CreateAgain => ReleaseStepView::Failed(Error::InvalidRepoOrInvalidToken),
    }
}

/// The step after an answer that gave `links`; `None` where they cannot be used, so that the search
/// cannot go on.
pub open spec fn after_links(search: ReleaseSearchView, links: ReleaseLinksView) -> Option<
    ReleaseStepView,
> {
    match links {
        ReleaseLinksView::Missing => Some(after_no_release(search)),
        ReleaseLinksView::Usable(urls) => Some(ReleaseStepView::Found(urls)),
        ReleaseLinksView::Unusable => None,
    }
}

/// The step after the answer to an attempt; `None` where its addresses cannot be used.
pub open spec fn after_answer(
    search: ReleaseSearchView,
    answer: Result<ReleaseResponseView, NetworkError>,
) -> Option<ReleaseStepView> {
    match answer {
        Err(_) => Some(after_no_release(search)),
        Ok(response) => after_links(search, links_of(response)),
    }
}

/// Views the step inside an option.
pub open spec fn option_step(step: Option<ReleaseStep>) -> Option<ReleaseStepView> {
    match step {
        Some(step) => Some(step@),
        None => None,
    }
}

/// The step after a commit was added, or could not be.
pub open spec fn after_commit(
    search: CommitSearchView,
    answer: Result<(), NetworkError>,
) -> ReleaseStepView {
    match answer {
        Ok(_) => create_step(search.repo, search.tag, Attempt::CreateAgain),
        Err(error) => ReleaseStepView::Failed(Error::Reqwest(error)),
    }
}

/// Views the response inside an answer.
pub open spec fn answer_view(answer: Result<ReleaseResponse, NetworkError>) -> Result<
    ReleaseResponseView,
    NetworkError,
> {
    match answer {
        Ok(response) => Ok(response@),
        Err(error) => Err(error),
    }
}

/// Reads one address of a response; `None` where it cannot be used.
fn read_url(url: &str) -> (address: Option<String>)
    ensures
        text::option_text(address) == usable_url(url@),
{
    match address::parse_url_checked(url) {
        Some(Ok(address)) => Some(address),
        _ => None,
    }
}

/// Reads the addresses of a release from a response.
pub fn release_links(response: &ReleaseResponse) -> (links: ReleaseLinks)
    ensures
        links@ == links_of(response@),
{
    match (&response.assets_url, &response.upload_url) {
        (Some(assets_url), Some(upload_url)) => {
            match (read_url(assets_url.as_str()), read_url(upload_url.as_str())) {
                (Some(assets_url), Some(upload_url)) => ReleaseLinks::Usable(
                    ReleaseUrls { assets_url, upload_url },
                ),
                _ => ReleaseLinks::Unusable,
            }
        },
        _ => ReleaseLinks::Missing,
    }
}

/// Starts the search for the release of `repo` under `tag`, which makes it where there is none.
///
/// # Errors
/// The search ends with an [`Error::InvalidRepoOrInvalidToken`] if no answer gives a release, because
/// the repository doesn't exist or the token does not have access to it.
pub fn create_or_get_release(repo: String, tag: String) -> (step: ReleaseStep)
    ensures
        step@ == search_started(repo@, tag@),
{
    let request = request::lookup_release_request(repo.as_str(), tag.as_str());
    ReleaseStep::Ask {
        search: ReleaseSearch { repo, tag, attempt: Attempt::Lookup },
        request,
    }
}

impl ReleaseSearch {
    /// Goes on without a release.
    fn without_release(self) -> (step: ReleaseStep)
        ensures
            step@ == after_no_release(self@),
    {
        match self.attempt {
            Attempt::Lookup => {
                let request = request::create_release_request(self.repo.as_str(), self.tag.as_str());
                ReleaseStep::Ask {
                    search: ReleaseSearch {
                        repo: self.repo,
                        tag: self.tag,
                        attempt: Attempt::Create,
                    },
                    request,
                }
            },
            Attempt::Create => {
                let request = request::add_commit_request(self.repo.as_str());
                ReleaseStep::AddCommit {
                    pending: CommitSearch { repo: self.repo, tag: self.tag },
                    request,
                }
            },
            Attempt::CreateAgain => ReleaseStep::Failed(Error::InvalidRepoOrInvalidToken),
        }
    }

    /// Goes on with the addresses that the answer to the request gave, which can be used.
    pub fn on_links(self, links: ReleaseLinks) -> (step: ReleaseStep)
        requires
            !(links@ is Unusable),
        ensures
            after_links(self@, links@) == Some(step@),
    {
        match links {
            ReleaseLinks::Usable(urls) => ReleaseStep::Found(urls),
            _ => self.without_release(),
        }
    }

    /// Goes on with the answer to the request: the release in it, whose addresses can be used, or why
    /// there is none.
    pub fn on_answer(self, answer: Result<ReleaseResponse, NetworkError>) -> (step: ReleaseStep)
        requires
            answer_view(answer) matches Ok(response) ==> !(links_of(response) is Unusable),
        ensures
            after_answer(self@, answer_view(answer)) == Some(step@),
    {
        match answer {
            Err(_) => self.without_release(),
            Ok(response) => self.on_links(release_links(&response)),
        }
    }

    /// Goes on with the answer to the request as [`ReleaseSearch::on_answer`] does; `None` where the
    /// release in it has both addresses, and one of them is no URL or does not fit.
    pub fn on_answer_checked(self, answer: Result<ReleaseResponse, NetworkError>) -> (step: Option<
        ReleaseStep,
    >)
        ensures
            option_step(step) == after_answer(self@, answer_view(answer)),
    {
        if let Ok(response) = &answer {
            if let ReleaseLinks::Unusable = release_links(response) {
                return None;
            }
        }
        Some(self.on_answer(answer))
    }
}

impl CommitSearch {
    /// Goes on with the answer to the request: whether it came and could be read.
    pub fn on_answer(self, answer: Result<(), NetworkError>) -> (step: ReleaseStep)
        ensures
            step@ == after_commit(self@, answer),
    {
        match answer {
            Ok(_) => {
                let request = request::create_release_request(self.repo.as_str(), self.tag.as_str());
                ReleaseStep::Ask {
                    search: ReleaseSearch {
                        repo: self.repo,
                        tag: self.tag,
                        attempt: Attempt::CreateAgain,
                    },
                    request,
                }
            },
            Err(error) => ReleaseStep::Failed(Error::from(error)),
        }
    }
}

/// True of an answer with the addresses of a release.
pub open spec fn gives_release(answer: Result<ReleaseResponseView, NetworkError>) -> bool {
    answer matches Ok(response) && links_of(response) is Usable
}

/// True of an answer whose addresses cannot be used.
pub open spec fn gives_unusable(answer: Result<ReleaseResponseView, NetworkError>) -> bool {
    answer matches Ok(response) && links_of(response) is Unusable
}

/// True of an answer that is no release, so that the search goes on.
pub open spec fn gives_no_release(answer: Result<ReleaseResponseView, NetworkError>) -> bool {
    answer matches Ok(response) ==> links_of(response) is Missing
}

/// The search of [`create_or_get_release`], from its start to its end: the requests it sends, and
/// how it ends; `None` where it cannot go on. `lookup`, `create`, `commit` and `again` are the answers
/// to the requests, each as far as the search asks for it.
pub open spec fn search_run(
    repo: Seq<char>,
    tag: Seq<char>,
    lookup: Result<ReleaseResponseView, NetworkError>,
    create: Result<ReleaseResponseView, NetworkError>,
    commit: Result<(), NetworkError>,
    again: Result<ReleaseResponseView, NetworkError>,
) -> (Seq<RequestView>, Option<ReleaseStepView>) {
    match search_started(repo, tag) {
        ReleaseStepView::Ask { search, request: first } => match after_answer(search, lookup) {
            Some(ReleaseStepView::Ask { search, request: second }) => match after_answer(
                search,
                create,
            ) {
                Some(ReleaseStepView::AddCommit { pending, request: third }) => match after_commit(
                    pending,
                    commit,
                ) {
                    ReleaseStepView::Ask { search, request: fourth } => (
                        seq![first, second, third, fourth],
                        after_answer(search, again),
                    ),
                    ended => (seq![first, second, third], Some(ended)),
                },
                ended => (seq![first, second], ended),
            },
            ended => (seq![first], ended),
        },
        ended => (seq![], Some(ended)),
    }
}

/// The requests of a search that finds nothing: lookup, creation, commit, creation.
pub open spec fn search_requests(repo: Seq<char>, tag: Seq<char>) -> Seq<RequestView> {
    seq![
        request::lookup_release(repo, tag),
        request::create_release(repo, tag),
        request::add_commit(repo),
        request::create_release(repo, tag),
    ]
}

/// A search ends, after at most four requests in the order of [`search_requests`]. The first
/// answer with a release ends it with that release, or with nothing where the addresses in it cannot
/// be used; a commit that could not be sent ends it with the network's error; and where no answer
/// gives a release, it ends with [`Error::InvalidRepoOrInvalidToken`].
pub proof fn search_ends(
    repo: Seq<char>,
    tag: Seq<char>,
    lookup: Result<ReleaseResponseView, NetworkError>,
    create: Result<ReleaseResponseView, NetworkError>,
    commit: Result<(), NetworkError>,
    again: Result<ReleaseResponseView, NetworkError>,
)
    ensures
        ({
            let (sent, end) = search_run(repo, tag, lookup, create, commit, again);
            let all = search_requests(repo, tag);
            &&& end matches Some(step) ==> step is Found || step is Failed
            &&& sent == all.take(sent.len() as int)
            &&& 1 <= sent.len() <= 4
            &&& !gives_no_release(lookup) ==> sent.len() == 1
            &&& gives_unusable(lookup) ==> end is None
            &&& gives_release(lookup) ==> end == Some(
                ReleaseStepView::Found(links_of(lookup->Ok_0)->Usable_0),
            )
            &&& gives_no_release(lookup) && !gives_no_release(create) ==> sent.len() == 2
            &&& gives_no_release(lookup) && gives_unusable(create) ==> end is None
            &&& gives_no_release(lookup) && gives_release(create) ==> end == Some(
                ReleaseStepView::Found(links_of(create->Ok_0)->Usable_0),
            )
            &&& gives_no_release(lookup) && gives_no_release(create) ==> match commit {
                Err(error) => sent.len() == 3 && end == Some(
                    ReleaseStepView::Failed(Error::Reqwest(error)),
                ),
                Ok(_) => {
                    &&& sent.len() == 4
                    &&& gives_unusable(again) ==> end is None
                    &&& gives_release(again) ==> end == Some(
                        ReleaseStepView::Found(links_of(again->Ok_0)->Usable_0),
                    )
                    &&& gives_no_release(again) ==> end == Some(
                        ReleaseStepView::Failed(Error::InvalidRepoOrInvalidToken),
                    )
                },
            }
        }),
{
    let (sent, end) = search_run(repo, tag, lookup, create, commit, again);
    assert(sent =~= search_requests(repo, tag).take(sent.len() as int));
}

/// Where a search fails for the repository or the token, no answer that it got gave a release.
pub proof fn refusal_means_no_release(
    repo: Seq<char>,
    tag: Seq<char>,
    lookup: Result<ReleaseResponseView, NetworkError>,
    create: Result<ReleaseResponseView, NetworkError>,
    commit: Result<(), NetworkError>,
    again: Result<ReleaseResponseView, NetworkError>,
)
    requires
        search_run(repo, tag, lookup, create, commit, again).1 == Some(
            ReleaseStepView::Failed(Error::InvalidRepoOrInvalidToken),
        ),
    ensures
        gives_no_release(lookup),
        gives_no_release(create),
        commit is Ok,
        gives_no_release(again),
{
}

/// A search starts with looking the release up under its tag.
pub proof fn search_starts_with_the_lookup(repo: Seq<char>, tag: Seq<char>)
    ensures
        search_started(repo, tag) matches ReleaseStepView::Ask { search, request } && search == (
        ReleaseSearchView { repo, tag, attempt: Attempt::Lookup }) && request.method == Method::Get
            && request.url == "https://api.github.com/repos/"@ + repo + "/releases/tags/"@ + tag,
{
}

/// Without a release the search goes from the lookup to the creation, from there to the commit, and
/// after the commit it ends; repository and tag stay the same all along.
pub proof fn search_goes_on_in_order(repo: Seq<char>, tag: Seq<char>, error: NetworkError)
    ensures
        after_no_release(ReleaseSearchView { repo, tag, attempt: Attempt::Lookup })
            matches ReleaseStepView::Ask { search, request } && search == (ReleaseSearchView {
            repo,
            tag,
            attempt: Attempt::Create,
        }) && request.method == Method::Post && request.url == "https://api.github.com/repos/"@ + repo
            + "/releases"@ && request.payload == PayloadView::Json(seq![("tag_name"@, tag)]),
        after_no_release(ReleaseSearchView { repo, tag, attempt: Attempt::Create })
            matches ReleaseStepView::AddCommit { pending, request } && pending == (CommitSearchView {
            repo,
            tag,
        }) && request.method == Method::Put && request.url == "https://api.github.com/repos/"@ + repo
            + "/contents/__no_empty_repo__"@,
        after_no_release(ReleaseSearchView { repo, tag, attempt: Attempt::CreateAgain })
            == ReleaseStepView::Failed(Error::InvalidRepoOrInvalidToken),
        after_commit(CommitSearchView { repo, tag }, Ok(())) matches ReleaseStepView::Ask {
            search,
            request,
        } && search == (ReleaseSearchView { repo, tag, attempt: Attempt::CreateAgain })
            && request.method == Method::Post && request.url == "https://api.github.com/repos/"@ + repo
            + "/releases"@ && request.payload == PayloadView::Json(seq![("tag_name"@, tag)]),
        after_commit(CommitSearchView { repo, tag }, Err(error)) == ReleaseStepView::Failed(
            Error::Reqwest(error),
        ),
{
}

/// An answer decides alone how the search goes on: a failed request and a response that lacks an
/// address are no release, and a response with both addresses is the release, where each of them is an
/// address of its own: the one is where files are listed, and the other where they go.
pub proof fn answer_gives_the_release(
    search: ReleaseSearchView,
    assets_url: Seq<char>,
    upload_url: Seq<char>,
    other: Option<Seq<char>>,
    error: NetworkError,
)
    requires
        address::can_be_cleaned(assets_url),
        address::can_be_cleaned(upload_url),
        address::clean_url(assets_url) is Ok,
        address::clean_url(upload_url) is Ok,
    ensures
        after_answer(
            search,
            Ok(
                ReleaseResponseView {
                    assets_url: Some(assets_url),
                    upload_url: Some(upload_url),
                },
            ),
        ) == Some(
            ReleaseStepView::Found(
                ReleaseUrlsView {
                    assets_url: address::clean_url(assets_url)->Ok_0,
                    upload_url: address::clean_url(upload_url)->Ok_0,
                },
            ),
        ),
        after_answer(search, Ok(ReleaseResponseView { assets_url: None, upload_url: other })) == Some(
            after_no_release(search),
        ),
        after_answer(search, Ok(ReleaseResponseView { assets_url: other, upload_url: None })) == Some(
            after_no_release(search),
        ),
        after_answer(search, Err(error)) == Some(after_no_release(search)),
{
}

/// A response with both addresses, one of which is no URL, stops the search.
pub proof fn address_that_is_no_url_stops_the_search(
    search: ReleaseSearchView,
    good: Seq<char>,
    bad: Seq<char>,
)
    requires
        address::url_parsed(bad) is Err,
    ensures
        after_answer(
            search,
            Ok(ReleaseResponseView { assets_url: Some(bad), upload_url: Some(good) }),
        ) is None,
        after_answer(
            search,
            Ok(ReleaseResponseView { assets_url: Some(good), upload_url: Some(bad) }),
        ) is None,
{
}

/// Addresses that are clean already are taken as they stand, each in its place.
pub proof fn clean_addresses_are_taken_as_they_stand(
    search: ReleaseSearchView,
    assets_url: Seq<char>,
    upload_url: Seq<char>,
)
    requires
        address::is_clean(assets_url),
        address::is_clean(upload_url),
    ensures
        after_answer(
            search,
            Ok(
                ReleaseResponseView {
                    assets_url: Some(assets_url),
                    upload_url: Some(upload_url),
                },
            ),
        ) == Some(ReleaseStepView::Found(ReleaseUrlsView { assets_url, upload_url })),
{
}

/// Responses, addresses and steps are shown as they are.
pub proof fn releases_are_shown_as_they_are(
    response: ReleaseResponse,
    urls: ReleaseUrls,
    links: ReleaseLinks,
    step: ReleaseStep,
    error: NetworkError,
)
    ensures
        response.upload_url matches Some(url) ==> response@.upload_url == Some(url@),
        response.upload_url is None ==> response@.upload_url is None,
        response.assets_url matches Some(url) ==> response@.assets_url == Some(url@),
        response.assets_url is None ==> response@.assets_url is None,
        answer_view(Ok(response)) == Ok::<ReleaseResponseView, NetworkError>(response@),
        answer_view(Err(error)) == Err::<ReleaseResponseView, NetworkError>(error),
        urls@.assets_url == urls.assets_url@,
        urls@.upload_url == urls.upload_url@,
        links is Missing <==> links@ is Missing,
        links is Unusable <==> links@ is Unusable,
        links matches ReleaseLinks::Usable(urls) ==> links@ == ReleaseLinksView::Usable(urls@),
        step matches ReleaseStep::Found(urls) ==> step@ == ReleaseStepView::Found(urls@),
        step matches ReleaseStep::Failed(error) ==> step@ == ReleaseStepView::Failed(error),
        step matches ReleaseStep::Ask { search, request } ==> step@ == (ReleaseStepView::Ask {
            search: search@,
            request: request@,
        }),
        step matches ReleaseStep::AddCommit { pending, request } ==> step@ == (
        ReleaseStepView::AddCommit { pending: pending@, request: request@ }),
        option_step(Some(step)) == Some(step@),
        option_step(None) is None,
{
}

/// The addresses that an answer gave decide alone how the search goes on.
pub proof fn links_decide_the_search(search: ReleaseSearchView, urls: ReleaseUrlsView)
    ensures
        after_links(search, ReleaseLinksView::Usable(urls)) == Some(ReleaseStepView::Found(urls)),
        after_links(search, ReleaseLinksView::Missing) == Some(after_no_release(search)),
        after_links(search, ReleaseLinksView::Unusable) is None,
{
}

} // verus!
