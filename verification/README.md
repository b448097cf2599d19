# free_storage

Stores files in the releases of a GitHub repository, and gets them back.

A file is cut into chunks of up to 100 MB, and each chunk becomes an asset of a release. The first
chunk starts with the name of the file. What is left of an upload is a `FileId`: the numbers of the
assets, and the repository.

## Layout

- `src/` is the library. It decides and computes, and Verus proves what it says of itself. It sends
  nothing: an upload, a download, a login and the search for a release are values that say what is
  to be done next and go on with what came of it.
  - `framing` lays a file out in chunks and takes it apart again.
  - `upload`, `download` and `release` are the three conversations with GitHub; `request` holds
    what is sent in them, `headers` what is sent with all of it, and `address` where it is sent.
  - `roundtrip` states what an upload and the download after it have to do with each other.
  - `cli`, `login` and `repo` are the decisions of the command line.
- `tests/` runs the library on concrete values, with the crates that it calls.
- `app/` is the program: arguments, files, and the requests themselves.

## What is trusted

The functions of `url`, `uuid` and `http` (through `reqwest`) that the library calls stand behind
wrappers in `address`, `upload` and `headers`. Of the standard library, `text` says what
`String::push` does, and `framing` what `std::str::from_utf8` does. Above each stands what its
contract claims. The errors of other crates are carried along, unread.
