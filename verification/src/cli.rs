//! What the command line decides before and after it uploads or downloads.

use vstd::prelude::*;
use vstd::string::*;
use crate::text;

verus! {

/// The directory, below the user's configuration, that the token is kept in.
pub fn config_directory() -> (name: String)
    ensures
        name@ == ".free_storage"@,
{
    ".free_storage".to_owned()
}

/// The file that the token is kept in.
pub fn token_file() -> (name: String)
    ensures
        name@ == "token"@,
{
    "token".to_owned()
}

/// Checks a path that was given on the command line, where `exists` says whether there is
/// something at it.
///
/// # Errors
/// Returns a message if there is nothing at the path.
pub fn validate_path(s: &str, exists: bool) -> (checked: Result<String, String>)
    ensures
        exists ==> (checked matches Ok(path) && path@ == s@),
        !exists ==> (checked matches Err(message) && message@ == "`"@ + s@ + "` doesn't exist."@),
{
    if exists {
        Ok(s.to_owned())
    } else {
        Err("`".to_owned().concat(s).concat("` doesn't exist."))
    }
}

/// Where the token of an upload comes from.
#[derive(Debug)]
pub enum TokenStep {
    /// Use this token.
    Use(String),
    /// Read the stored token.
    ReadStored,
    /// There is no token: show the message, and exit with the code.
    Exit {
        /// What to show.
        message: String,
        /// The code of the process.
        code: i32,
    },
}

/// The view of a [`TokenStep`].
pub enum TokenStepView {
    /// Use this token.
    Use(Seq<char>),
    /// Read the stored token.
    ReadStored,
    /// Show the message and exit.
    Exit {
        /// What to show.
        message: Seq<char>,
        /// The code of the process.
        code: i32,
    },
}

impl View for TokenStep {
    type V = TokenStepView;

    open spec fn view(&self) -> TokenStepView {
        match *self {
            TokenStep::Use(token) => TokenStepView::Use(token@),
            TokenStep::ReadStored => TokenStepView::ReadStored,
            TokenStep::Exit { message, code } => TokenStepView::Exit { message: message@, code },
        }
    }
}

/// The step with the token of the command line, where it has one.
pub open spec fn token_given(token: Option<Seq<char>>) -> TokenStepView {
    match token {
        Some(token) => TokenStepView::Use(token),
        None => TokenStepView::ReadStored,
    }
}

/// The step after the stored token was read, or could not be.
pub open spec fn token_stored(stored: Option<Seq<char>>) -> TokenStepView {
    match stored {
        Some(token) => TokenStepView::Use(token),
        None => TokenStepView::Exit {
            message: "Please provide `--token` or run `storage login` first."@,
            code: 1,
        },
    }
}

/// Takes the token of the command line, where it has one.
pub fn get_token(token: Option<String>) -> (step: TokenStep)
    ensures
        step@ == token_given(text::option_text(token)),
{
    match token {
        Some(token) => TokenStep::Use(token),
        None => TokenStep::ReadStored,
    }
}

/// Takes the stored token; `None` where it could not be read.
pub fn use_stored_token(stored: Option<String>) -> (step: TokenStep)
    ensures
        step@ == token_stored(text::option_text(stored)),
{
    match stored {
        Some(token) => TokenStep::Use(token),
        None => TokenStep::Exit {
            message: "Please provide `--token` or run `storage login` first.".to_owned(),
            code: 1,
        },
    }
}

/// The token of an upload, where `token` came with the command line and `stored` was kept by an
/// earlier login.
pub open spec fn chosen_token(token: Option<Seq<char>>, stored: Option<Seq<char>>) -> Option<
    Seq<char>,
> {
    match token_given(token) {
        TokenStepView::Use(token) => Some(token),
        _ => match token_stored(stored) {
            TokenStepView::Use(token) => Some(token),
            _ => None,
        },
    }
}

/// A token on the command line comes before a stored one, which is not even read; the program
/// exits exactly where there is neither.
pub proof fn given_token_comes_first(token: Option<Seq<char>>, stored: Option<Seq<char>>)
    ensures
        chosen_token(token, stored) == if token is Some {
            token
        } else {
            stored
        },
        token_given(token) is ReadStored <==> token is None,
        token_stored(stored) is Exit <==> stored is None,
{
}

/// Where a downloaded file is written.
#[derive(Debug)]
pub enum OutputPath<P> {
    /// At the path that was given.
    Given(P),
    /// At the file name of this name.
    FileNameOf(String),
}

/// Chooses where a downloaded file is written: at `out_path`, or under its own name where no path
/// was given.
pub fn output_path<P>(out_path: Option<P>, name: String) -> (path: OutputPath<P>)
    ensures
        path == match out_path {
            Some(given) => OutputPath::Given(given),
            None => OutputPath::FileNameOf(name),
        },
{
    match out_path {
        Some(given) => OutputPath::Given(given),
        None => OutputPath::FileNameOf(name),
    }
}

/// Without any token the program says how to give one, and fails.
pub proof fn missing_token_is_explained()
    ensures
        token_stored(None) matches TokenStepView::Exit { message, code } && message
            == "Please provide `--token` or run `storage login` first."@ && code == 1,
{
}

/// The token that is used is the one that was given or read, all of it.
pub proof fn token_is_used_as_it_is(token: Seq<char>, step: TokenStep)
    ensures
        token_given(Some(token)) == TokenStepView::Use(token),
        token_stored(Some(token)) == TokenStepView::Use(token),
        step matches TokenStep::Use(used) ==> step@ == TokenStepView::Use(used@),
        step is ReadStored <==> step@ is ReadStored,
        step matches TokenStep::Exit { message, code } ==> step@ == (TokenStepView::Exit {
            message: message@,
            code,
        }),
{
}

} // verus!
