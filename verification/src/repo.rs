//! The names of repositories.

use vstd::prelude::*;
use vstd::string::*;

verus! {

/// The number of slashes in a text.
pub open spec fn slashes(text: Seq<char>) -> nat {
    text.filter(|c: char| c == '/').len()
}

/// True where `repo` has the form `owner/repo`: split at its slashes, it has two parts.
pub open spec fn is_repo_name(repo: Seq<char>) -> bool {
    slashes(repo) + 1 == 2
}

/// True where `repo` has the form `owner/repo`.
pub fn has_repo_form(repo: &str) -> (yes: bool)
    ensures
        yes == is_repo_name(repo@),
{
    let mut seen: u8 = 0;
    let ghost is_slash = |c: char| c == '/';
    for c in it: repo.chars()
        invariant
            it.seq() == repo@,
            is_slash == (|c: char| c == '/'),
            seen <= 2,
            seen < 2 ==> seen == repo@.take(it.index() as int).filter(is_slash).len(),
            seen == 2 ==> repo@.take(it.index() as int).filter(is_slash).len() >= 2,
    {
        proof {
            let i = it.index() as int;
            assert(repo@.take(i + 1).drop_last() =~= repo@.take(i));
            reveal(Seq::filter);
        }
        if c == '/' && seen < 2 {
            seen = seen + 1;
        }
    }
    assert(repo@.take(repo@.len() as int) =~= repo@);
    seen == 1
}

/// Checks a repository that was given on the command line.
///
/// # Errors
/// Returns a message if `s` has not the form `owner/repo`.
pub fn validate_repo(s: &str) -> (checked: Result<String, String>)
    ensures
        is_repo_name(s@) ==> (checked matches Ok(repo) && repo@ == s@),
        !is_repo_name(s@) ==> (checked matches Err(message) && message@
            == "Invalid repository. Must be in `owner/repo` format."@),
{
    if has_repo_form(s) {
        Ok(s.to_owned())
    } else {
        Err("Invalid repository. Must be in `owner/repo` format.".to_owned())
    }
}

/// A repository name is an owner, a slash and a name, neither of which holds a slash; and every
/// such text is a repository name.
pub proof fn repo_name_is_owner_and_name(repo: Seq<char>)
    ensures
        is_repo_name(repo) <==> exists|owner: Seq<char>, name: Seq<char>|
            #![trigger owner + seq!['/'] + name]
            repo == owner + seq!['/'] + name && !owner.contains('/') && !name.contains('/'),
{
    if is_repo_name(repo) {
        one_slash_splits(repo);
        let at = choose|at: int| is_only_slash(repo, at);
        let owner = repo.take(at);
        let name = repo.skip(at + 1);
        assert(repo =~= owner + seq!['/'] + name);
        assert(!owner.contains('/') && !name.contains('/'));
    }
    if exists|owner: Seq<char>, name: Seq<char>|
        #![trigger owner + seq!['/'] + name]
        repo == owner + seq!['/'] + name && !owner.contains('/') && !name.contains('/') {
        let (owner, name) = choose|owner: Seq<char>, name: Seq<char>|
            #![trigger owner + seq!['/'] + name]
            repo == owner + seq!['/'] + name && !owner.contains('/') && !name.contains('/');
        no_slashes(owner);
        no_slashes(name);
        slashes_concat(owner, seq!['/']);
        slashes_concat(owner + seq!['/'], name);
        assert(slashes(seq!['/']) == 1) by {
            reveal_with_fuel(Seq::filter, 2);
        }
    }
}

/// True where the only slash of `text` is at `at`.
spec fn is_only_slash(text: Seq<char>, at: int) -> bool {
    &&& 0 <= at < text.len()
    &&& text[at] == '/'
    &&& forall|i: int| 0 <= i < text.len() && i != at ==> #[trigger] text[i] != '/'
}

proof fn one_slash_splits(text: Seq<char>)
    requires
        slashes(text) == 1,
    ensures
        exists|at: int| is_only_slash(text, at),
    decreases text.len(),
{
    reveal(Seq::filter);
    let front = text.drop_last();
    let is_slash = |c: char| c == '/';
    assert(text.len() > 0);
    if text.last() == '/' {
        assert(slashes(front) == 0);
        no_slash_left(front);
        assert forall|i: int| 0 <= i < text.len() - 1 implies #[trigger] text[i] != '/' by {
            assert(front.contains(front[i]));
        }
        assert(is_only_slash(text, text.len() - 1));
    } else {
        one_slash_splits(front);
        let at = choose|at: int| is_only_slash(front, at);
        assert(is_only_slash(text, at)) by {
            assert forall|i: int| 0 <= i < text.len() && i != at implies #[trigger] text[i] != '/' by {
                if i < front.len() {
                    assert(front[i] == text[i]);
                }
            }
        }
    }
}

proof fn no_slash_left(text: Seq<char>)
    requires
        slashes(text) == 0,
    ensures
        !text.contains('/'),
{
    let is_slash = |c: char| c == '/';
    if text.contains('/') {
        let i = choose|i: int| 0 <= i < text.len() && text[i] == '/';
        text.lemma_filter_contains(is_slash, i);
        assert(text.filter(is_slash).contains('/'));
    }
}

proof fn no_slashes(text: Seq<char>)
    requires
        !text.contains('/'),
    ensures
        slashes(text) == 0,
    decreases text.len(),
{
    reveal(Seq::filter);
    if text.len() > 0 {
        assert(text.contains(text.last()));
        let front = text.drop_last();
        assert forall|i: int| 0 <= i < front.len() implies front[i] != '/' by {
            assert(text.contains(text[i]));
        }
        no_slashes(front);
    }
}

proof fn slashes_concat(front: Seq<char>, back: Seq<char>)
    ensures
        slashes(front + back) == slashes(front) + slashes(back),
    decreases back.len(),
{
    reveal(Seq::filter);
    if back.len() == 0 {
        assert(front + back =~= front);
    } else {
        assert((front + back).drop_last() =~= front + back.drop_last());
        slashes_concat(front, back.drop_last());
    }
}

} // verus!
