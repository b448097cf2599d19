//! Addresses of releases and their files.
//!
//! An address is held as the text of a URL. What only the `url` crate can say of such a text is
//! named here, and each of its functions that the library calls stands behind one wrapper, which
//! reads the text with `url::Url::parse` and writes the URL out again as its serialization.

use url::ParseError as UrlError;
use vstd::prelude::*;
use vstd::string::*;
use vstd::utf8::*;
use crate::error::Error;
use crate::text;

verus! {

/// The byte that a query starts with.
pub const QUERY_MARK: u8 = 63;

/// The byte that a fragment starts with.
pub const FRAGMENT_MARK: u8 = 35;

/// What `url::Url::parse` makes of a text: the serialization of the URL, or why it is none.
pub uninterp spec fn url_parsed(input: Seq<char>) -> Result<Seq<char>, UrlError>;

/// The serialization of the URL that `url` reads as, after `url::Url::set_query`.
pub uninterp spec fn url_query_set(url: Seq<char>, query: Option<Seq<char>>) -> Seq<char>;

/// What `url::Url::path` gives of the URL that `url` reads as.
pub uninterp spec fn url_path(url: Seq<char>) -> Seq<char>;

/// The serialization of the URL that `url` reads as, after `url::Url::set_path`.
pub uninterp spec fn url_path_set(url: Seq<char>, path: Seq<char>) -> Seq<char>;

/// Views the text of a parsed URL.
pub open spec fn parsed_text(parsed: Result<String, UrlError>) -> Result<Seq<char>, UrlError> {
    match parsed {
        Ok(text) => Ok(text@),
        Err(error) => Err(error),
    }
}

/// The number of bytes that the `url` crate cannot count past where it looks for the end of the host.
pub const COUNT_LIMIT: usize = 0x8000_0000;

/// True where byte number `i` ends the part of a URL with the user and the host, if that part is not
/// at its end already: a slash, a question mark or a number sign, behind a byte that can only belong
/// to that part. So that byte is none that may be skipped in a URL, and no colon, slash or backslash,
/// which may stand before that part.
pub open spec fn ends_authority(bytes: Seq<u8>, i: int) -> bool {
    &&& 0 < i < bytes.len()
    &&& bytes[i] == 47 || bytes[i] == QUERY_MARK || bytes[i] == FRAGMENT_MARK
    &&& bytes[i - 1] > 32 && bytes[i - 1] != 47 && bytes[i - 1] != 58 && bytes[i - 1] != 92
}

/// True where `text` is shorter than 2 GiB, or where the part of the URL with the user and the host
/// is.
pub open spec fn is_countable(text: Seq<char>) -> bool {
    ||| encode_utf8(text).len() < COUNT_LIMIT
    ||| exists|i: int| i < COUNT_LIMIT && #[trigger] ends_authority(encode_utf8(text), i)
}

/// True where `url` is a URL that the `url` crate can read.
pub open spec fn is_url(url: Seq<char>) -> bool {
    is_countable(url) && url_parsed(url) is Ok
}

/// True where `url` is the serialization of a URL, so that it reads back as it stands.
pub open spec fn reads_back(url: Seq<char>) -> bool {
    url_parsed(url) == Ok::<Seq<char>, UrlError>(url)
}

/// True where `url` starts as the serialization of a URL with the scheme `http` or `https` does.
pub open spec fn is_web_text(url: Seq<char>) -> bool {
    "http://"@.is_prefix_of(url) || "https://"@.is_prefix_of(url)
}

/// True where `url` is the serialization of a URL with the scheme `http` or `https`.
pub open spec fn is_web_url(url: Seq<char>) -> bool {
    is_web_text(url) && is_countable(url) && reads_back(url)
}

/// True where `text` holds the mark of a label of a domain that is not in ASCII.
pub open spec fn has_punycode(text: Seq<char>) -> bool {
    exists|i: int| 0 <= i <= text.len() - 4 && #[trigger] text.subrange(i, i + 4) == "xn--"@
}

/// The number of bytes before the query and the fragment in the serialization of a URL.
pub open spec fn base_len(bytes: Seq<u8>) -> nat
    decreases bytes.len(),
{
    if bytes.len() == 0 || bytes[0] == QUERY_MARK || bytes[0] == FRAGMENT_MARK {
        0
    } else {
        1 + base_len(bytes.drop_first())
    }
}

/// True where `url` is a URL whose part before the query and the fragment is within the 4 GiB
/// that the `url` crate can count.
pub open spec fn base_fits(url: Seq<char>) -> bool {
    is_countable(url) && match url_parsed(url) {
        Ok(text) => base_len(encode_utf8(text)) <= u32::MAX,
        Err(_) => false,
    }
}

/// True where `url` is a URL that can be given a query of `room` bytes: its base is within 4 GiB,
/// and where a fragment follows, the query is so too.
pub open spec fn query_fits(url: Seq<char>, room: nat) -> bool {
    is_countable(url) && match url_parsed(url) {
        Ok(text) => {
            let base = base_len(encode_utf8(text));
            base <= u32::MAX && (encode_utf8(text).contains(FRAGMENT_MARK) ==> base + room
                <= u32::MAX)
        },
        Err(_) => false,
    }
}

/// True of the characters that every query keeps as they are: digits, small letters, `=` and `-`.
pub open spec fn plain_query_char(c: char) -> bool {
    '0' <= c <= '9' || 'a' <= c <= 'z' || c == '=' || c == '-'
}

/// True where a query keeps all of `query` as it is.
pub open spec fn is_plain_query(query: Seq<char>) -> bool {
    forall|i: int| 0 <= i < query.len() ==> plain_query_char(#[trigger] query[i])
}

/// The bytes that a query can need in a URL, with its question mark: those of a plain query as they
/// are, and three for each byte of another, which may be percent-encoded.
pub open spec fn query_room(query: Seq<char>) -> nat {
    if is_plain_query(query) {
        1 + query.len()
    } else {
        1 + 3 * encode_utf8(query).len()
    }
}

/// True where `url` is the serialization of a URL with neither query nor fragment.
pub open spec fn is_bare_url(url: Seq<char>) -> bool {
    &&& reads_back(url)
    &&& !url.contains('?')
    &&& !url.contains('#')
}

/// The URL `url` without its query.
pub open spec fn without_query(url: Seq<char>) -> Seq<char> {
    url_query_set(url, None)
}

/// True where `bare` is an `http` or `https` URL without a query and with the path of `url`.
pub open spec fn is_without_query(bare: Seq<char>, url: Seq<char>) -> bool {
    &&& is_web_url(bare)
    &&& without_query(bare) == bare
    &&& url_path(bare) == url_path(url)
}

/// What stands behind the last slash of a path.
pub open spec fn last_segment(path: Seq<char>) -> Seq<char>
    decreases path.len(),
{
    if path.len() == 0 || path.last() == '/' {
        Seq::empty()
    } else {
        last_segment(path.drop_last()).push(path.last())
    }
}

/// True of a dot, as it is or percent-encoded.
pub open spec fn is_dot(text: Seq<char>) -> bool {
    text == "."@ || text == "%2e"@ || text == "%2E"@
}

/// True of one dot and of two dots: the segments that a path is rid of.
pub open spec fn is_dot_segment(segment: Seq<char>) -> bool {
    ||| is_dot(segment)
    ||| exists|a: Seq<char>, b: Seq<char>| #[trigger] is_dot(a) && #[trigger] is_dot(b) && segment == a + b
}

/// True where `path` stays `given` when it is set to it; where `given` is empty or ends in a dot
/// segment, `path` ends in a slash.
pub open spec fn is_path_set_to(path: Seq<char>, given: Seq<char>) -> bool {
    if given.len() > 0 && !is_dot_segment(last_segment(given)) {
        path == given
    } else {
        path.len() > 0 && path.last() == '/'
    }
}

/// True where `changed` is an `http` or `https` URL whose path is set to `path`, and without a query
/// where `url` has none.
pub open spec fn has_path(changed: Seq<char>, url: Seq<char>, path: Seq<char>) -> bool {
    &&& is_web_url(changed)
    &&& without_query(url) == url ==> without_query(changed) == changed
    &&& is_path_set_to(url_path(changed), path)
}

/// Calls `url::Url::parse`, which reads a text as an absolute URL. The result depends on the text
/// alone and is the one that `url_parsed` names. The serialization of an `http` or `https` URL reads
/// back as it stands where it can be counted and holds no label in Punycode.
///
/// `parse` counts the characters up to the host in 31 bits: on a longer count it may panic, or lose
/// the user. Of Punycode nothing is said because the `idna` crate reads such labels only up to a
/// length that it does not keep to when it writes them.
#[verifier::external_body]
fn parse(input: &str) -> (parsed: Result<String, UrlError>)
    requires
        is_countable(input@),
    ensures
        parsed_text(parsed) == url_parsed(input@),
        parsed matches Ok(text) ==> is_web_text(text@) && !has_punycode(text@) && is_countable(text@)
            ==> reads_back(text@),
{
    url::Url::parse(input).map(String::from)
}

/// Calls `url::Url::set_query`, which replaces the query of a URL, or removes it. The result
/// depends on the URL and the query alone and is the one that `url_query_set` names. A query of
/// plain characters is put as it stands, after a question mark, at the end of a bare URL. Without
/// its query an `http` or `https` URL is one still, has the same path, and has no query to remove.
///
/// `set_query` panics where what comes before the query, or before the fragment, passes 4 GiB.
#[verifier::external_body]
pub(crate) fn set_query(url: &str, query: Option<&str>) -> (changed: String)
    requires
        is_url(url@),
        query matches Some(query) ==> query_fits(url@, query_room(query@)),
    ensures
        changed@ == url_query_set(url@, text::option_str(query)),
        query matches Some(query) ==> is_bare_url(url@) && is_plain_query(query@) ==> changed@ == url@
            + seq!['?'] + query@,
        query is None && is_web_url(url@) ==> is_without_query(changed@, url@),
{
    let mut parsed = url::Url::parse(url).unwrap();
    parsed.set_query(query);
    parsed.into()
}

/// Calls `url::Url::path`, which gives the path of a URL, percent-encoded. The result depends on
/// the URL alone and is the one that `url_path` names.
#[verifier::external_body]
fn path(url: &str) -> (path: String)
    requires
        is_url(url@),
    ensures
        path@ == url_path(url@),
{
    url::Url::parse(url).unwrap().path().to_owned()
}

/// Calls `url::Url::set_path`, which replaces the path of a URL, here by a part that it starts with.
/// The result depends on the URL and the path alone and is the one that `url_path_set` names. An
/// `http` or `https` URL is one still, without a query where it had none, and gets the path as it
/// stands; but where the last segment of the path is `.` or `..`, percent-encoded or not, or the path
/// is empty, it gets one that ends in a slash.
///
/// `set_path` panics where the old path or the new one ends past 4 GiB. A part that the old path
/// starts with is encoded already, so that the new path is not longer.
#[verifier::external_body]
fn set_path(url: &str, path: &str) -> (changed: String)
    requires
        base_fits(url@),
        path@.is_prefix_of(url_path(url@)),
    ensures
        changed@ == url_path_set(url@, path@),
        is_web_url(url@) ==> has_path(changed@, url@, path@),
{
    let mut parsed = url::Url::parse(url).unwrap();
    parsed.set_path(path);
    parsed.into()
}

/// The path before the start of a template, where the path ends in one.
///
/// The start of a template, percent-encoded, comes to stand at the end of the path where the
/// template has a query, as in `assets{?name,label}`.
pub open spec fn path_without_template(path: Seq<char>) -> Option<Seq<char>> {
    text::without_suffix(path, "%7B"@)
}

/// The address that `input` stands for: the URL without its query, and without the template
/// that the path may end in.
pub open spec fn clean_url(input: Seq<char>) -> Result<Seq<char>, UrlError> {
    match url_parsed(input) {
        Err(error) => Err(error),
        Ok(url) => {
            let bare = without_query(url);
            match path_without_template(url_path(bare)) {
                Some(path) => Ok(url_path_set(bare, path)),
                None => Ok(bare),
            }
        },
    }
}

/// True where the path of `bare` ends in a template that the `url` crate cannot cut off, because
/// the path ends past 4 GiB.
pub open spec fn is_too_long(bare: Seq<char>) -> bool {
    path_without_template(url_path(bare)) is Some && !base_fits(bare)
}

/// True where `input` can be read, and is no URL, or a URL that reads back as one, with its query and
/// without, and is not too long.
pub open spec fn can_be_cleaned(input: Seq<char>) -> bool {
    is_countable(input) && match url_parsed(input) {
        Err(_) => true,
        Ok(url) => {
            &&& is_url(url)
            &&& is_url(without_query(url))
            &&& !is_too_long(without_query(url))
        },
    }
}

/// True where `input` is an `http` or `https` URL whose serialization can be read and reads back, as
/// it does wherever it is without Punycode.
pub open spec fn is_web_address(input: Seq<char>) -> bool {
    is_countable(input) && (url_parsed(input) matches Ok(url) && is_web_text(url) && is_countable(url)
        && (!has_punycode(url) || reads_back(url)))
}

/// True where `found` is an `http` or `https` URL without a query whose path is that of the URL
/// `input`, or is set to the part before `%7B` where that path ends in it.
pub open spec fn is_address_of(found: Seq<char>, input: Seq<char>) -> bool {
    &&& is_web_url(found)
    &&& without_query(found) == found
    &&& url_parsed(input) matches Ok(url) && if "%7B"@.is_suffix_of(url_path(url)) {
        is_path_set_to(url_path(found), url_path(url).take(url_path(url).len() - "%7B"@.len()))
    } else {
        url_path(found) == url_path(url)
    }
}

/// True where the path of the URL `input` ends in the start of a template twice over.
pub open spec fn has_two_templates(input: Seq<char>) -> bool {
    url_parsed(input) matches Ok(url) && "%7B%7B"@.is_suffix_of(url_path(url))
}

/// True where `address` is its own address.
pub open spec fn is_clean(address: Seq<char>) -> bool {
    can_be_cleaned(address) && clean_url(address) == Ok::<Seq<char>, UrlError>(address)
}

/// The path before the start of a template; `None` where the path does not end in one.
pub fn strip_template(path: &str) -> (front: Option<String>)
    ensures
        text::option_text(front) == path_without_template(path@),
{
    text::strip_suffix(path, "%7B")
}

/// A path whose end is not that of two templates has none left once one is cut off.
proof fn one_template_is_left_out(path: Seq<char>)
    requires
        !"%7B%7B"@.is_suffix_of(path),
    ensures
        path_without_template(path) matches Some(front) ==> path_without_template(front) is None,
{
    reveal_strlit("%7B");
    reveal_strlit("%7B%7B");
    if let Some(front) = path_without_template(path) {
        if "%7B"@.is_suffix_of(front) {
            let n = path.len();
            assert forall|i: int| 0 <= i < 6 implies "%7B%7B"@[i] == path[n - 6 + i] by {
                if i < 3 {
                    assert("%7B"@[i] == front[n - 6 + i]);
                } else {
                    assert("%7B"@[i - 3] == path[n - 3 + (i - 3)]);
                }
            }
            assert("%7B%7B"@ =~= path.subrange(n - 6, n as int));
        }
    }
}

/// A path that ends in a slash ends in no template.
proof fn slash_ends_no_template(path: Seq<char>)
    requires
        path.len() > 0,
        path.last() == '/',
    ensures
        path_without_template(path) is None,
{
    reveal_strlit("%7B");
    if "%7B"@.is_suffix_of(path) {
        assert("%7B"@[2] == path[path.len() - 1]);
    }
}

/// Reads the address of a release from a response.
///
/// The query is dropped, and so is the template that the path may end in. What comes of an `http` or
/// `https` URL that reads back is one again, and is its own address unless the path ended in two
/// templates.
///
/// # Errors
/// Returns an [`Error::Url`] if `url` is no URL.
pub fn parse_url(url: &str) -> (address: Result<String, Error>)
    requires
        can_be_cleaned(url@),
    ensures
        match clean_url(url@) {
            Ok(text) => address matches Ok(found) && found@ == text,
            Err(error) => address == Err::<String, Error>(Error::Url(error)),
        },
        address matches Ok(found) ==> is_web_address(url@) ==> is_address_of(found@, url@),
        address matches Ok(found) ==> is_web_address(url@) && !has_two_templates(url@) ==> is_clean(
            found@,
        ),
{
    match parse(url) {
        Err(error) => Err(Error::from(error)),
        Ok(parsed) => {
            let bare = set_query(parsed.as_str(), None);
            let bare_path = path(bare.as_str());
            match strip_template(bare_path.as_str()) {
                Some(front) => {
                    assert(front@.is_prefix_of(bare_path@));
                    let address = set_path(bare.as_str(), front.as_str());
                    proof {
                        if is_web_address(url@) && !has_two_templates(url@) {
                            one_template_is_left_out(bare_path@);
                            if url_path(address@) != front@ {
                                slash_ends_no_template(url_path(address@));
                            }
                        }
                    }
                    Ok(address)
                },
                None => Ok(bare),
            }
        },
    }
}

/// The number of bytes before the query and the fragment, and whether there is a fragment.
fn measure(bytes: &[u8]) -> (measured: (usize, bool))
    ensures
        measured.0 == base_len(bytes@),
        measured.1 == bytes@.contains(FRAGMENT_MARK),
{
    let mut base: usize = 0;
    assert(bytes@.skip(0) =~= bytes@);
    while base < bytes.len() && bytes[base] != QUERY_MARK && bytes[base] != FRAGMENT_MARK
        invariant
            base <= bytes@.len(),
            base_len(bytes@) == base + base_len(bytes@.skip(base as int)),
            forall|i: int| 0 <= i < base ==> #[trigger] bytes@[i] != FRAGMENT_MARK,
        decreases bytes@.len() - base,
    {
        assert(bytes@.skip(base as int).drop_first() =~= bytes@.skip(base + 1));
        base = base + 1;
    }
    let mut i: usize = base;
    while i < bytes.len() && bytes[i] != FRAGMENT_MARK
        invariant
            i <= bytes@.len(),
            forall|j: int| 0 <= j < i ==> #[trigger] bytes@[j] != FRAGMENT_MARK,
        decreases bytes@.len() - i,
    {
        i = i + 1;
    }
    let fragment = i < bytes.len();
    assert(fragment ==> bytes@[i as int] == FRAGMENT_MARK);
    (base, fragment)
}

/// True where the `url` crate can count `text`.
fn can_be_counted(text: &str) -> (yes: bool)
    ensures
        yes == is_countable(text@),
{
    let bytes = text.as_bytes();
    if bytes.len() < COUNT_LIMIT {
        return true;
    }
    let mut i: usize = 1;
    while i < COUNT_LIMIT
        invariant
            bytes@ == encode_utf8(text@),
            bytes@.len() >= COUNT_LIMIT,
            1 <= i <= COUNT_LIMIT,
            forall|j: int| j < i ==> !#[trigger] ends_authority(bytes@, j),
        decreases COUNT_LIMIT - i,
    {
        let mark: u8 = bytes[i];
        let before: u8 = bytes[i - 1];
        if (mark == 47 || mark == QUERY_MARK || mark == FRAGMENT_MARK) && before > 32 && before != 47
            && before != 58 && before != 92 {
            assert(ends_authority(bytes@, i as int));
            return true;
        }
        i = i + 1;
    }
    false
}

/// True where `url` is a URL that can be given a query of `room` bytes.
pub fn fits(url: &str, room: u64) -> (yes: bool)
    ensures
        yes == query_fits(url@, room as nat),
{
    if !can_be_counted(url) {
        return false;
    }
    match parse(url) {
        Ok(text) => {
            let (base, fragment) = measure(text.as_str().as_bytes());
            base <= 0xffff_ffff && (!fragment || room <= 0xffff_ffff - base as u64)
        },
        Err(_) => false,
    }
}

/// Reads an address as [`parse_url`] does, where the `url` crate can hold it; `None` where it
/// cannot. An `http` or `https` URL is refused only where it is too long, or where its serialization
/// does not read back, as it may not where the host has a label in Punycode.
pub fn parse_url_checked(url: &str) -> (address: Option<Result<String, Error>>)
    ensures
        address is Some <==> can_be_cleaned(url@),
        is_web_address(url@) && address is None ==> is_too_long(without_query(url_parsed(url@)->Ok_0)),
        address matches Some(result) ==> match clean_url(url@) {
            Ok(text) => result matches Ok(found) && found@ == text,
            Err(error) => result == Err::<String, Error>(Error::Url(error)),
        },
        address matches Some(Ok(found)) ==> is_web_address(url@) ==> is_address_of(found@, url@),
        address matches Some(Ok(found)) ==> is_web_address(url@) && !has_two_templates(url@)
            ==> is_clean(found@),
{
    if !can_be_counted(url) {
        return None;
    }
    match parse(url) {
        Err(_) => Some(parse_url(url)),
        Ok(parsed) => {
            if !can_be_counted(parsed.as_str()) || parse(parsed.as_str()).is_err() {
                return None;
            }
            let bare = set_query(parsed.as_str(), None);
            if !can_be_counted(bare.as_str()) || parse(bare.as_str()).is_err() {
                return None;
            }
            let bare_path = path(bare.as_str());
            if strip_template(bare_path.as_str()).is_some() && !fits(bare.as_str(), 0) {
                return None;
            }
            Some(parse_url(url))
        },
    }
}

/// The start of a template is cut off every path that ends in it, and nothing is cut off any other.
pub proof fn template_is_cut_off_every_path(front: Seq<char>, path: Seq<char>)
    ensures
        path_without_template(front + "%7B"@) == Some(front),
        !"%7B"@.is_suffix_of(path) ==> path_without_template(path) is None,
{
    let whole = front + "%7B"@;
    assert("%7B"@.is_suffix_of(whole)) by {
        assert(whole.subrange(front.len() as int, whole.len() as int) =~= "%7B"@);
    }
    assert(whole.take(front.len() as int) =~= front);
}

/// The address that a text stands for is the URL that it reads as, without its query, and with the
/// path before the template where the path ends in one; a text that is no URL has none.
pub proof fn address_is_without_query_and_template(
    input: Seq<char>,
    url: Seq<char>,
    front: Seq<char>,
    error: UrlError,
)
    ensures
        url_parsed(input) == Err::<Seq<char>, UrlError>(error) ==> clean_url(input) == Err::<
            Seq<char>,
            UrlError,
        >(error),
        url_parsed(input) == Ok::<Seq<char>, UrlError>(url) && url_path(url_query_set(url, None))
            == front + "%7B"@ ==> clean_url(input) == Ok::<Seq<char>, UrlError>(
            url_path_set(url_query_set(url, None), front),
        ),
        url_parsed(input) == Ok::<Seq<char>, UrlError>(url) && !"%7B"@.is_suffix_of(
            url_path(url_query_set(url, None)),
        ) ==> clean_url(input) == Ok::<Seq<char>, UrlError>(url_query_set(url, None)),
{
    template_is_cut_off_every_path(front, url_path(url_query_set(url, None)));
}

/// What is found for an `http` or `https` URL has exactly its path, or the part of it before the
/// template that it ends in; only where that part is empty or ends in a dot segment does the path end
/// in a slash instead.
pub proof fn found_address_has_the_path(found: Seq<char>, input: Seq<char>, url: Seq<char>, front: Seq<char>)
    requires
        is_address_of(found, input),
        url_parsed(input) == Ok::<Seq<char>, UrlError>(url),
    ensures
        url_query_set(found, None) == found,
        url_parsed(found) == Ok::<Seq<char>, UrlError>(found),
        !"%7B"@.is_suffix_of(url_path(url)) ==> url_path(found) == url_path(url),
        url_path(url) == front + "%7B"@ && front.len() > 0 && !is_dot_segment(last_segment(front))
            ==> url_path(found) == front,
        url_path(url) == front + "%7B"@ ==> url_path(found) == front || (url_path(found).len() > 0
            && url_path(found).last() == '/'),
{
    reveal_strlit("%7B");
    let whole = front + "%7B"@;
    assert(whole.subrange(front.len() as int, whole.len() as int) =~= "%7B"@);
    assert(whole.take(whole.len() - 3) =~= front);
}

/// The last segment of a path is what stands behind its last slash, and a dot segment is one or two
/// dots, each as it is or percent-encoded.
pub proof fn dot_segments_are_one_or_two_dots(path: Seq<char>, segment: Seq<char>)
    requires
        !segment.contains('/'),
    ensures
        last_segment(path.push('/') + segment) == segment,
        is_dot_segment("."@),
        is_dot_segment("."@ + "."@),
        is_dot_segment(segment) ==> 1 <= segment.len() <= 6 && (segment[0] == '.' || segment[0] == '%'),
    decreases segment.len(),
{
    reveal_strlit(".");
    reveal_strlit("%2e");
    reveal_strlit("%2E");
    let whole = path.push('/') + segment;
    assert(is_dot("."@));
    if segment.len() == 0 {
        assert(whole =~= path.push('/'));
        assert(segment =~= Seq::<char>::empty());
    } else {
        let front = segment.drop_last();
        assert forall|i: int| 0 <= i < front.len() implies front[i] != '/' by {
            assert(segment.contains(segment[i]));
        }
        assert(segment.contains(segment.last()));
        dot_segments_are_one_or_two_dots(path, front);
        assert(whole.drop_last() =~= path.push('/') + front);
        assert(front.push(segment.last()) =~= segment);
    }
}

/// Every address of ordinary length is handled: one that is no URL, and one that is a URL and reads
/// back as one, with its query and without.
pub proof fn ordinary_addresses_are_cleaned(input: Seq<char>, url: Seq<char>, bare: Seq<char>)
    requires
        encode_utf8(input).len() < 0x8000_0000,
        url_parsed(input) == Ok::<Seq<char>, UrlError>(url) ==> {
            &&& encode_utf8(url).len() < 0x8000_0000
            &&& url_parsed(url) is Ok
            &&& encode_utf8(url_query_set(url, None)).len() < 0x8000_0000
            &&& url_parsed(url_query_set(url, None)) == Ok::<Seq<char>, UrlError>(bare)
            &&& encode_utf8(bare).len() <= 0xffff_ffff
        },
        url_parsed(input) is Ok ==> url_parsed(input)->Ok_0 == url,
    ensures
        can_be_cleaned(input),
{
    base_is_part_of_the_url(encode_utf8(bare));
}

/// A URL has room for a query wherever the two together are within 4 GiB, and for any query where it
/// is so itself and has no fragment.
pub proof fn ordinary_urls_have_room(url: Seq<char>, text: Seq<char>, room: nat)
    requires
        encode_utf8(url).len() < 0x8000_0000,
        url_parsed(url) == Ok::<Seq<char>, UrlError>(text),
        encode_utf8(text).len() + room <= 0xffff_ffff || (encode_utf8(text).len() <= 0xffff_ffff
            && !encode_utf8(text).contains(35u8)),
    ensures
        query_fits(url, room),
        base_fits(url),
{
    base_is_part_of_the_url(encode_utf8(text));
}

/// What comes before the query and the fragment goes up to the first question mark or number sign, or
/// to the end.
pub proof fn base_is_part_of_the_url(bytes: Seq<u8>)
    ensures
        base_len(bytes) <= bytes.len(),
        forall|i: int|
            0 <= i < base_len(bytes) ==> #[trigger] bytes[i] != '?' as u8 && bytes[i] != '#' as u8,
        base_len(bytes) < bytes.len() ==> bytes[base_len(bytes) as int] == '?' as u8 || bytes[base_len(
            bytes,
        ) as int] == '#' as u8,
    decreases bytes.len(),
{
    if bytes.len() > 0 && bytes[0] != QUERY_MARK && bytes[0] != FRAGMENT_MARK {
        let rest = bytes.drop_first();
        base_is_part_of_the_url(rest);
        assert forall|i: int| 0 <= i < base_len(bytes) implies #[trigger] bytes[i] != '?' as u8
            && bytes[i] != '#' as u8 by {
            if i > 0 {
                assert(bytes[i] == rest[i - 1]);
            }
        }
    }
}

/// Every `http` and `https` URL of ordinary length that reads back is a web address, and one whose path
/// ends in `%7B` at most once has no two templates; a clean address is its own.
pub proof fn ordinary_web_urls_are_web_addresses(input: Seq<char>, url: Seq<char>)
    requires
        encode_utf8(input).len() < 0x8000_0000,
        encode_utf8(url).len() < 0x8000_0000,
        url_parsed(input) == Ok::<Seq<char>, UrlError>(url),
        url_parsed(url) == Ok::<Seq<char>, UrlError>(url),
        "http://"@.is_prefix_of(url) || "https://"@.is_prefix_of(url),
    ensures
        is_web_address(input),
        !"%7B%7B"@.is_suffix_of(url_path(url)) ==> !has_two_templates(input),
        is_clean(url) ==> clean_url(url) == Ok::<Seq<char>, UrlError>(url),
{
}

} // verus!
