//! The headers that go with every request.

use reqwest::header::{HeaderMap, HeaderName, HeaderValue};
use vstd::prelude::*;
use vstd::string::*;
use vstd::utf8::*;
use crate::text;

verus! {

/// `http::HeaderValue`, as `reqwest::header` has it: the value of one header.
#[verifier::external_type_specification]
#[verifier::external_body]
pub struct ExHeaderValue(HeaderValue);

/// `http::HeaderMap`, as `reqwest::header` has it: headers by their names.
#[verifier::external_type_specification]
#[verifier::external_body]
#[verifier::reject_recursive_types(T)]
pub struct ExHeaderMap<T>(HeaderMap<T>);

/// What a header map holds: for each name, in small letters, the bytes of its values in their
/// order, each with whether it is marked as sensitive.
pub uninterp spec fn header_entries(headers: HeaderMap<HeaderValue>) -> Map<
    Seq<char>,
    Seq<(Seq<u8>, bool)>,
>;

/// No headers at all.
pub open spec fn no_headers() -> Map<Seq<char>, Seq<(Seq<u8>, bool)>> {
    Map::empty()
}

/// The name of the header that carries the token.
pub open spec fn authorization() -> Seq<char> {
    "authorization"@
}

/// True where `text` can be the value of a header: its bytes are a tab, or neither below a space
/// nor the delete character.
pub open spec fn is_header_text(text: Seq<char>) -> bool {
    forall|i: int|
        0 <= i < encode_utf8(text).len() ==> {
            let byte = #[trigger] encode_utf8(text)[i];
            byte == 9 || (byte >= 32 && byte != 127)
        }
}

/// The value of the header that carries `token`.
pub open spec fn token_header(token: Seq<char>) -> Seq<char> {
    "token "@ + token
}

/// The headers of every request of a client with this token.
pub open spec fn default_headers(token: Option<Seq<char>>) -> Map<Seq<char>, Seq<(Seq<u8>, bool)>> {
    match token {
        Some(token) => no_headers().insert(
            authorization(),
            seq![(encode_utf8(token_header(token)), true)],
        ),
        None => no_headers(),
    }
}

/// Calls `HeaderMap::new`, which gives a map without headers.
#[verifier::external_body]
fn new_headers() -> (headers: HeaderMap<HeaderValue>)
    ensures
        header_entries(headers) == no_headers(),
{
    HeaderMap::new()
}

/// True of the names that a header is inserted under here: small letters and hyphens, at least
/// one and not more than 64.
pub open spec fn is_plain_name(name: Seq<char>) -> bool {
    &&& 1 <= name.len() <= 64
    &&& forall|i: int| 0 <= i < name.len() ==> 'a' <= #[trigger] name[i] <= 'z' || name[i] == '-'
}

/// Calls `HeaderMap::insert`, with the name made by `HeaderName::from_bytes`, and the value made
/// by `HeaderValue::from_str` and marked by `HeaderValue::set_sensitive`. The value takes the
/// place of all values that the name had; the other names keep theirs.
///
/// `insert` panics where the map would outgrow its limit, which maps of fewer than six names are
/// far from.
#[verifier::external_body]
fn insert_header(headers: &mut HeaderMap<HeaderValue>, name: &str, text: &str, sensitive: bool)
    requires
        is_plain_name(name@),
        is_header_text(text@),
        header_entries(*old(headers)).dom().finite(),
        header_entries(*old(headers)).len() < 6,
    ensures
        header_entries(*final(headers)) == header_entries(*old(headers)).insert(
            name@,
            seq![(encode_utf8(text@), sensitive)],
        ),
{
    let name = HeaderName::from_bytes(name.as_bytes()).unwrap();
    let mut value = HeaderValue::from_str(text).unwrap();
    value.set_sensitive(sensitive);
    headers.insert(name, value);
}

/// Calls `HeaderValue::from_str`, which takes a text as the value of a header unless one of its
/// bytes is a control character other than the tab.
#[verifier::external_body]
fn accepts_header_text(text: &str) -> (yes: bool)
    ensures
        yes == is_header_text(text@),
{
    HeaderValue::from_str(text).is_ok()
}

/// The name under which a client presents itself.
pub fn user_agent() -> (name: String)
    ensures
        name@ == "Rust"@,
{
    "Rust".to_owned()
}

/// True where `token` can be sent in a header.
pub fn is_sendable_token(token: &str) -> (yes: bool)
    ensures
        yes == is_header_text(token_header(token@)),
{
    accepts_header_text("token ".to_owned().concat(token).as_str())
}

/// The headers of every request of a client: with a token, the one that carries it, marked as
/// sensitive.
pub fn client_headers(token: Option<&str>) -> (headers: HeaderMap<HeaderValue>)
    requires
        token matches Some(token) ==> is_header_text(token_header(token@)),
    ensures
        header_entries(headers) == default_headers(text::option_str(token)),
{
    let mut headers = new_headers();
    match token {
        Some(token) => {
            let value = "token ".to_owned().concat(token);
            proof {
                reveal_strlit("authorization");
            }
            insert_header(&mut headers, "authorization", value.as_str(), true);
        },
        None => {},
    }
    headers
}

/// With a token every request carries one authorization, the token marked as sensitive, and no
/// other header; without a token it carries none.
pub proof fn only_a_token_authorizes(token: Option<Seq<char>>)
    ensures
        default_headers(token).dom() == if token is Some {
            set![authorization()]
        } else {
            Set::<Seq<char>>::empty()
        },
        token matches Some(token) ==> default_headers(Some(token))[authorization()] == seq![
            (encode_utf8("token "@ + token), true),
        ],
{
    assert(default_headers(token).dom() =~= if token is Some {
        set![authorization()]
    } else {
        Set::<Seq<char>>::empty()
    });
}

/// The token that is sent is the one that was given: behind the word `token`, in the header
/// `authorization`, and marked as sensitive. It is the only header, and without a token there is none.
pub proof fn token_is_sent_as_it_was_given(token: Seq<char>, other: Seq<char>)
    ensures
        default_headers(Some(token)) == Map::<Seq<char>, Seq<(Seq<u8>, bool)>>::empty().insert(
            "authorization"@,
            seq![(encode_utf8("token "@ + token), true)],
        ),
        default_headers(None) == Map::<Seq<char>, Seq<(Seq<u8>, bool)>>::empty(),
        token != other ==> default_headers(Some(token)) != default_headers(Some(other)),
{
    if default_headers(Some(token)) == default_headers(Some(other)) {
        let a = "token "@ + token;
        let b = "token "@ + other;
        assert(default_headers(Some(token))["authorization"@][0] == default_headers(
            Some(other),
        )["authorization"@][0]);
        assert(encode_utf8(a) == encode_utf8(b));
        encode_utf8_decode_utf8(a);
        encode_utf8_decode_utf8(b);
        assert(a.skip("token "@.len() as int) =~= token);
        assert(b.skip("token "@.len() as int) =~= other);
    }
}

/// A token is fit to be sent exactly where no byte of it is a control character other than the tab.
pub proof fn token_without_control_characters_can_be_sent(token: Seq<char>)
    ensures
        is_header_text(token_header(token)) <==> forall|i: int|
            0 <= i < encode_utf8(token).len() ==> {
                let byte = #[trigger] encode_utf8(token)[i];
                byte == 9 || (32 <= byte && byte != 127)
            },
{
    reveal_strlit("token ");
    let word = "token "@;
    assert(is_ascii_chars(word));
    is_ascii_chars_encode_utf8(word);
    text::encode_utf8_concat(word, token);
    let whole = encode_utf8(token_header(token));
    let n = encode_utf8(word).len() as int;
    assert(whole == encode_utf8(word) + encode_utf8(token));
    assert forall|i: int| 0 <= i < n implies whole[i] >= 32 && whole[i] != 127 by {
        assert(word[i] as u8 == encode_utf8(word)[i]);
    }
    if is_header_text(token_header(token)) {
        assert forall|i: int| 0 <= i < encode_utf8(token).len() implies ({
            let byte = #[trigger] encode_utf8(token)[i];
            byte == 9 || (32 <= byte && byte != 127)
        }) by {
            assert(whole[n + i] == encode_utf8(token)[i]);
        }
    } else {
        let i = choose|i: int|
            0 <= i < whole.len() && !({
                let byte = #[trigger] whole[i];
                byte == 9 || (byte >= 32 && byte != 127)
            });
        assert(whole[i] == encode_utf8(token)[i - n]);
    }
}

} // verus!
