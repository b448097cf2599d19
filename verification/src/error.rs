//! What can go wrong.

use reqwest::Error as NetworkError;
use serde_json::Error as JsonError;
use std::io::Error as IoError;
use url::ParseError as UrlError;
use vstd::prelude::*;
use vstd::std_specs::convert::FromSpec;
use vstd::string::*;

verus! {

/// `reqwest::Error`, a request that failed. It is only carried along.
#[verifier::external_type_specification]
#[verifier::external_body]
pub struct ExNetworkError(NetworkError);

/// `serde_json::Error`, text that is no JSON of the expected form. It is only carried along.
#[verifier::external_type_specification]
#[verifier::external_body]
pub struct ExJsonError(JsonError);

/// `std::io::Error`, a read or a write that failed. It is only carried along.
#[verifier::external_type_specification]
#[verifier::external_body]
pub struct ExIoError(IoError);

/// `url::ParseError`, text that is no URL. It is only carried along.
#[verifier::external_type_specification]
#[verifier::external_body]
pub struct ExUrlError(UrlError);

/// The errors of uploading and downloading a file.
#[derive(Debug)]
pub enum Error {
    /// A request failed, or its response could not be read.
    Reqwest(NetworkError),
    /// A text was no JSON of the expected form.
    JSON(JsonError),
    /// The file could not be read.
    Io(IoError),
    /// An address was no URL.
    Url(UrlError),
    /// The repository is not written `owner/repo`, or it does not exist, or the token does not
    /// give access to it.
    InvalidRepoOrInvalidToken,
    /// The token does not give access to the file, or the file does not exist.
    Unauthorized,
}

/// True where `text` is `prefix` followed by what `cause` displays.
pub open spec fn tells<T: core::fmt::Display>(text: Seq<char>, prefix: Seq<char>, cause: T) -> bool {
    exists|shown: String| #[trigger]
        to_string_from_display_ensures(&cause, shown) && text == prefix + shown@
}

impl Error {
    /// True where `text` is the message of this error.
    pub open spec fn says(self, text: Seq<char>) -> bool {
        match self {
            Error::Reqwest(cause) => tells(text, "Network Error: "@, cause),
            Error::JSON(cause) => tells(text, "Error Parsing JSON: "@, cause),
            Error::Io(cause) => tells(text, "I/O Error: "@, cause),
            Error::Url(cause) => tells(text, "Error Parsing URL: "@, cause),
            Error::InvalidRepoOrInvalidToken => text
                == "Invalid Repository OR The Token is Invalid"@,
            Error::Unauthorized => text == "Unauthorized"@,
        }
    }

    /// The message of this error.
    pub fn message(&self) -> (text: String)
        ensures
            self.says(text@),
    {
        match self {
            Error::Reqwest(cause) => {
                let shown = cause.to_string();
                "Network Error: ".to_owned().concat(shown.as_str())
            },
            Error::JSON(cause) => {
                let shown = cause.to_string();
                "Error Parsing JSON: ".to_owned().concat(shown.as_str())
            },
            Error::Io(cause) => {
                let shown = cause.to_string();
                "I/O Error: ".to_owned().concat(shown.as_str())
            },
            Error::Url(cause) => {
                let shown = cause.to_string();
                "Error Parsing URL: ".to_owned().concat(shown.as_str())
            },
            Error::InvalidRepoOrInvalidToken => {
                "Invalid Repository OR The Token is Invalid".to_owned()
            },
            Error::Unauthorized => "Unauthorized".to_owned(),
        }
    }
}

impl From<NetworkError> for Error {
    fn from(cause: NetworkError) -> (error: Self) {
        Error::Reqwest(cause)
    }
}

impl vstd::std_specs::convert::FromSpecImpl<NetworkError> for Error {
    open spec fn obeys_from_spec() -> bool {
        true
    }

    open spec fn from_spec(cause: NetworkError) -> Self {
        Error::Reqwest(cause)
    }
}

impl From<JsonError> for Error {
    fn from(cause: JsonError) -> (error: Self) {
        Error::JSON(cause)
    }
}

impl vstd::std_specs::convert::FromSpecImpl<JsonError> for Error {
    open spec fn obeys_from_spec() -> bool {
        true
    }

    open spec fn from_spec(cause: JsonError) -> Self {
        Error::JSON(cause)
    }
}

impl From<IoError> for Error {
    fn from(cause: IoError) -> (error: Self) {
        Error::Io(cause)
    }
}

impl vstd::std_specs::convert::FromSpecImpl<IoError> for Error {
    open spec fn obeys_from_spec() -> bool {
        true
    }

    open spec fn from_spec(cause: IoError) -> Self {
        Error::Io(cause)
    }
}

impl From<UrlError> for Error {
    fn from(cause: UrlError) -> (error: Self) {
        Error::Url(cause)
    }
}

impl vstd::std_specs::convert::FromSpecImpl<UrlError> for Error {
    open spec fn obeys_from_spec() -> bool {
        true
    }

    open spec fn from_spec(cause: UrlError) -> Self {
        Error::Url(cause)
    }
}

/// Each error has its own message: those of other crates what the cause displays, behind the name of
/// the kind of error, and the others a fixed text.
pub proof fn errors_say_what_they_are(
    network: NetworkError,
    json: JsonError,
    io: IoError,
    url: UrlError,
    text: Seq<char>,
)
    ensures
        Error::Unauthorized.says(text) <==> text == "Unauthorized"@,
        Error::InvalidRepoOrInvalidToken.says(text) <==> text
            == "Invalid Repository OR The Token is Invalid"@,
        Error::Reqwest(network).says(text) <==> exists|shown: String| #[trigger]
            to_string_from_display_ensures(&network, shown) && text == "Network Error: "@ + shown@,
        Error::JSON(json).says(text) <==> exists|shown: String| #[trigger]
            to_string_from_display_ensures(&json, shown) && text == "Error Parsing JSON: "@ + shown@,
        Error::Io(io).says(text) <==> exists|shown: String| #[trigger]
            to_string_from_display_ensures(&io, shown) && text == "I/O Error: "@ + shown@,
        Error::Url(url).says(text) <==> exists|shown: String| #[trigger]
            to_string_from_display_ensures(&url, shown) && text == "Error Parsing URL: "@ + shown@,
{
}

/// An error of another crate becomes the error of its kind, and is kept.
pub proof fn causes_are_kept(network: NetworkError, json: JsonError, io: IoError, url: UrlError)
    ensures
        <Error as FromSpec<NetworkError>>::from_spec(network) == Error::Reqwest(network),
        <Error as FromSpec<JsonError>>::from_spec(json) == Error::JSON(json),
        <Error as FromSpec<IoError>>::from_spec(io) == Error::Io(io),
        <Error as FromSpec<UrlError>>::from_spec(url) == Error::Url(url),
{
}

} // verus!
