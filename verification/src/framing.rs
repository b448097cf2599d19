//! How a file is laid out in the bytes that are stored.
//!
//! The stored bytes are the file's name, a question mark, and the file's content. They are cut
//! into chunks: the first chunk carries the name, every other chunk carries content alone.

use vstd::prelude::*;
use vstd::string::*;
use vstd::utf8::*;
use crate::text;

verus! {

/// The most content that one chunk carries.
///
/// 100 megabytes, because of the time it takes to send a chunk.
pub const CHUNK_SIZE: usize = 100_000_000;

/// The byte that ends the file name.
pub const NAME_END: u8 = 63;

/// True of the characters that a stored file name may hold.
pub open spec fn name_char(c: char) -> bool {
    c != '?' && c != '!'
}

/// The name under which a file is stored: `name` without question and exclamation marks.
pub open spec fn stored_name(name: Seq<char>) -> Seq<char> {
    name.filter(|c: char| name_char(c))
}

/// The bytes that come before the content: the name and the question mark that ends it.
pub open spec fn name_header(name: Seq<char>) -> Seq<u8> {
    encode_utf8(name.push('?'))
}

/// What chunk number `index` of the file `name` holds, where `content` was read for it.
pub open spec fn chunk_bytes(name: Seq<char>, index: nat, content: Seq<u8>) -> Seq<u8> {
    if index == 0 {
        name_header(name) + content
    } else {
        content
    }
}

/// The chunks of the file `name` whose content was read in the pieces `reads`.
pub open spec fn chunks_of(name: Seq<char>, reads: Seq<Seq<u8>>) -> Seq<Seq<u8>> {
    Seq::new(reads.len(), |i: int| chunk_bytes(name, i as nat, reads[i]))
}

/// The pieces one after the other.
pub open spec fn joined(pieces: Seq<Seq<u8>>) -> Seq<u8>
    decreases pieces.len(),
{
    if pieces.len() == 0 {
        Seq::empty()
    } else {
        joined(pieces.drop_last()) + pieces.last()
    }
}

/// The number of bytes before the first question mark, or all of them where there is none.
pub open spec fn name_len(bytes: Seq<u8>) -> nat
    decreases bytes.len(),
{
    if bytes.len() == 0 || bytes[0] == NAME_END {
        0
    } else {
        1 + name_len(bytes.drop_first())
    }
}

/// Each byte as the character with that number.
pub open spec fn byte_chars(bytes: Seq<u8>) -> Seq<char> {
    Seq::new(bytes.len(), |i: int| bytes[i] as char)
}

/// `bytes` without the first `n`, or nothing where there are not that many.
pub open spec fn after(bytes: Seq<u8>, n: nat) -> Seq<u8> {
    if n <= bytes.len() {
        bytes.skip(n as int)
    } else {
        Seq::empty()
    }
}

/// The text that `bytes` are the UTF-8 encoding of, where they are one.
pub open spec fn decoded(bytes: Seq<u8>) -> Option<Seq<char>> {
    if valid_utf8(bytes) {
        Some(decode_utf8(bytes))
    } else {
        None
    }
}

/// The name that stored bytes begin with: what the bytes before the first question mark encode, or
/// each of them as a character where they encode nothing.
pub open spec fn unpacked_name(bytes: Seq<u8>) -> Seq<char> {
    let name = bytes.take(name_len(bytes) as int);
    match decoded(name) {
        Some(text) => text,
        None => byte_chars(name),
    }
}

/// The content that stored bytes hold: what comes after the first question mark.
pub open spec fn unpacked_content(bytes: Seq<u8>) -> Seq<u8> {
    after(bytes, name_len(bytes) + 1)
}

/// Calls `std::str::from_utf8`, which reads bytes as UTF-8: it gives the text that they encode, and
/// an error where they are not valid.
#[verifier::external_body]
fn decode(bytes: &[u8]) -> (text: Option<String>)
    ensures
        text::option_text(text) == decoded(bytes@),
{
    std::str::from_utf8(bytes).ok().map(String::from)
}

/// The name under which a file is stored.
pub fn sanitize_file_name(name: &str) -> (stored: String)
    ensures
        stored@ == stored_name(name@),
{
    let mut stored = String::new();
    let ghost keep = |c: char| name_char(c);
    for c in it: name.chars()
        invariant
            it.seq() == name@,
            keep == (|c: char| name_char(c)),
            stored@ == name@.take(it.index() as int).filter(keep),
    {
        proof {
            let i = it.index() as int;
            assert(name@.take(i + 1).drop_last() =~= name@.take(i));
            reveal(Seq::filter);
        }
        if c != '?' && c != '!' {
            stored.push(c);
        }
    }
    assert(name@.take(name@.len() as int) =~= name@);
    stored
}

/// Puts the items of `slice` in front of those of `vec`.
pub fn prepend_slice<T: Copy>(vec: &mut Vec<T>, slice: &[T])
    ensures
        final(vec)@ == slice@ + old(vec)@,
{
    let mut front: Vec<T> = Vec::new();
    let mut i: usize = 0;
    while i < slice.len()
        invariant
            i <= slice@.len(),
            front@ == slice@.take(i as int),
            *vec == *old(vec),
        decreases slice@.len() - i,
    {
        front.push(slice[i]);
        i = i + 1;
        assert(front@ =~= slice@.take(i as int));
    }
    assert(slice@.take(slice@.len() as int) =~= slice@);
    front.append(vec);
    *vec = front;
}

/// A buffer for the content of one chunk, filled with zeros.
pub fn chunk_buffer() -> (buffer: Vec<u8>)
    ensures
        buffer@ == Seq::new(CHUNK_SIZE as nat, |i: int| 0u8),
{
    let buffer: Vec<u8> = vec![0u8; CHUNK_SIZE];
    assert(buffer@ =~= Seq::new(CHUNK_SIZE as nat, |i: int| 0u8));
    buffer
}

/// Writes each byte as the character with that number.
fn chars_of_bytes(bytes: &[u8]) -> (text: String)
    ensures
        text@ == byte_chars(bytes@),
{
    let mut text = String::new();
    let mut i: usize = 0;
    while i < bytes.len()
        invariant
            i <= bytes@.len(),
            text@ == byte_chars(bytes@.take(i as int)),
        decreases bytes@.len() - i,
    {
        text.push(bytes[i] as char);
        i = i + 1;
        assert(text@ =~= byte_chars(bytes@.take(i as int)));
    }
    assert(bytes@.take(bytes@.len() as int) =~= bytes@);
    text
}

/// Takes stored bytes apart into the content and the name.
pub fn unpack(bytes: Vec<u8>) -> (file: (Vec<u8>, String))
    ensures
        file.0@ == unpacked_content(bytes@),
        file.1@ == unpacked_name(bytes@),
{
    let mut bytes = bytes;
    let ghost all = bytes@;
    let mut i: usize = 0;
    assert(all.skip(0) =~= all);
    while i < bytes.len() && bytes[i] != NAME_END
        invariant
            bytes@ == all,
            i <= all.len(),
            name_len(all) == i + name_len(all.skip(i as int)),
        decreases all.len() - i,
    {
        assert(all.skip(i as int).drop_first() =~= all.skip(i + 1));
        i = i + 1;
    }
    let content: Vec<u8> = if i < bytes.len() {
        bytes.split_off(i + 1)
    } else {
        Vec::new()
    };
    bytes.truncate(i);
    assert(content@ =~= unpacked_content(all));
    assert(bytes@ =~= all.take(name_len(all) as int));
    let name = match decode(bytes.as_slice()) {
        Some(text) => text,
        None => chars_of_bytes(bytes.as_slice()),
    };
    (content, name)
}

/// A stored name holds neither mark and is stored again as it is; a name without the marks is
/// stored unchanged.
pub proof fn stored_name_is_clean(name: Seq<char>)
    ensures
        forall|i: int| 0 <= i < stored_name(name).len() ==> name_char(#[trigger] stored_name(name)[i]),
        stored_name(stored_name(name)) == stored_name(name),
        (forall|i: int| 0 <= i < name.len() ==> name_char(#[trigger] name[i])) ==> stored_name(name)
            == name,
{
    let keep = |c: char| name_char(c);
    let stored = stored_name(name);
    assert forall|i: int| 0 <= i < stored.len() implies name_char(#[trigger] stored[i]) by {
        name.lemma_filter_pred(keep, i);
    }
    all_kept(stored);
    if forall|i: int| 0 <= i < name.len() ==> name_char(#[trigger] name[i]) {
        all_kept(name);
    }
}

proof fn all_kept(name: Seq<char>)
    requires
        forall|i: int| 0 <= i < name.len() ==> name_char(#[trigger] name[i]),
    ensures
        stored_name(name) == name,
    decreases name.len(),
{
    reveal(Seq::filter);
    if name.len() > 0 {
        all_kept(name.drop_last());
        assert(name =~= name.drop_last().push(name.last()));
    }
}

/// The byte that ends a name occurs in the encoding of no other character.
proof fn encoded_char_ends_no_name(c: char)
    requires
        c != '?',
    ensures
        forall|i: int| 0 <= i < encode_scalar(c as u32).len() ==> #[trigger] encode_scalar(
            c as u32,
        )[i] != NAME_END,
{
    char_is_scalar(c);
    let v = c as u32;
    assert(v != 63);
    assert(v <= 0x7F && v != 63 ==> (v & 0x7F) as u8 != 63) by (bit_vector);
    assert(0xC0 | ((v >> 6) & 0x1F) as u8 >= 0x80) by (bit_vector);
    assert(0xE0 | ((v >> 12) & 0x0F) as u8 >= 0x80) by (bit_vector);
    assert(0xF0 | ((v >> 18) & 0x7) as u8 >= 0x80) by (bit_vector);
    assert(0x80 | (v & 0x3F) as u8 >= 0x80) by (bit_vector);
    assert(0x80 | ((v >> 6) & 0x3F) as u8 >= 0x80) by (bit_vector);
    assert(0x80 | ((v >> 12) & 0x3F) as u8 >= 0x80) by (bit_vector);
}

proof fn encoded_name_has_no_end(name: Seq<char>)
    requires
        !name.contains('?'),
    ensures
        forall|i: int| 0 <= i < encode_utf8(name).len() ==> #[trigger] encode_utf8(name)[i] != NAME_END,
    decreases name.len(),
{
    if name.len() > 0 {
        assert(name.contains(name[0]));
        encoded_char_ends_no_name(name[0]);
        let rest = name.drop_first();
        assert forall|i: int| 0 <= i < rest.len() implies rest[i] != '?' by {
            assert(name.contains(name[i + 1]));
        }
        encoded_name_has_no_end(rest);
        let head = encode_scalar(name[0] as u32);
        let tail = encode_utf8(rest);
        assert forall|i: int| 0 <= i < encode_utf8(name).len() implies #[trigger] encode_utf8(name)[i]
            != NAME_END by {
            if i < head.len() {
                assert(encode_utf8(name)[i] == head[i]);
            } else {
                assert(encode_utf8(name)[i] == tail[i - head.len()]);
            }
        }
    }
}

proof fn name_len_before_end(front: Seq<u8>, rest: Seq<u8>)
    requires
        forall|i: int| 0 <= i < front.len() ==> #[trigger] front[i] != NAME_END,
        rest.len() > 0,
        rest[0] == NAME_END,
    ensures
        name_len(front + rest) == front.len(),
    decreases front.len(),
{
    if front.len() == 0 {
        assert(front + rest =~= rest);
    } else {
        assert((front + rest).drop_first() =~= front.drop_first() + rest);
        name_len_before_end(front.drop_first(), rest);
    }
}

/// Any name without a question mark and any content come back as they were stored.
pub proof fn unpack_reads_back(name: Seq<char>, content: Seq<u8>)
    requires
        !name.contains('?'),
    ensures
        unpacked_name(name_header(name) + content) == name,
        unpacked_content(name_header(name) + content) == content,
{
    let front = encode_utf8(name);
    let bytes = name_header(name) + content;
    text::encode_utf8_concat(name, seq!['?']);
    assert(name.push('?') =~= name + seq!['?']);
    assert(encode_utf8(seq!['?']) =~= encode_scalar('?' as u32)) by {
        reveal_with_fuel(encode_utf8, 2);
    }
    assert((63u32 & 0x7F) as u8 == 63) by (bit_vector);
    assert(encode_scalar('?' as u32) =~= seq![NAME_END]);
    let rest = seq![NAME_END] + content;
    assert(bytes =~= front + rest);
    encoded_name_has_no_end(name);
    name_len_before_end(front, rest);
    assert(bytes.take(front.len() as int) =~= front);
    encode_utf8_valid_utf8(name);
    encode_utf8_decode_utf8(name);
    assert(unpacked_content(bytes) =~= content);
}

/// The chunks joined are the name, the question mark and the content, or nothing at all where
/// nothing was read.
pub proof fn chunks_join_to_the_stored_bytes(name: Seq<char>, reads: Seq<Seq<u8>>)
    ensures
        joined(chunks_of(name, reads)) == if reads.len() == 0 {
            Seq::empty()
        } else {
            name_header(name) + joined(reads)
        },
    decreases reads.len(),
{
    let chunks = chunks_of(name, reads);
    if reads.len() > 0 {
        assert(chunks.drop_last() =~= chunks_of(name, reads.drop_last()));
        chunks_join_to_the_stored_bytes(name, reads.drop_last());
        let last = reads.len() - 1;
        assert(joined(chunks) == joined(chunks.drop_last()) + chunks[last]);
        assert(joined(reads) == joined(reads.drop_last()) + reads[last]);
        if last == 0 {
            assert(joined(reads.drop_last()) =~= Seq::<u8>::empty());
            assert(chunks[last] == name_header(name) + reads[last]);
        } else {
            assert(chunks[last] == reads[last]);
        }
        assert(joined(chunks) =~= name_header(name) + joined(reads));
    }
}

/// A file comes back as it was stored: from the chunks of a file, joined in their order, come its
/// stored name and its content, however the content was cut.
///
/// Something was read, or the stored name is empty: without content there is no chunk for a name.
pub proof fn stored_file_reads_back(file_name: Seq<char>, reads: Seq<Seq<u8>>)
    requires
        reads.len() > 0 || stored_name(file_name).len() == 0,
    ensures
        unpacked_name(joined(chunks_of(stored_name(file_name), reads))) == stored_name(file_name),
        unpacked_content(joined(chunks_of(stored_name(file_name), reads))) == joined(reads),
{
    let name = stored_name(file_name);
    stored_name_is_clean(file_name);
    chunks_join_to_the_stored_bytes(name, reads);
    if reads.len() > 0 {
        unpack_reads_back(name, joined(reads));
    } else {
        assert(unpacked_name(Seq::<u8>::empty()) =~= name);
    }
}

/// A file keeps its own name but for question and exclamation marks: those are left out wherever
/// they stand, and every other character is kept in its place.
pub proof fn only_marks_are_left_out(name: Seq<char>, c: char)
    ensures
        stored_name(Seq::empty()) == Seq::<char>::empty(),
        stored_name(name.push('?')) == stored_name(name),
        stored_name(name.push('!')) == stored_name(name),
        c != '?' && c != '!' ==> stored_name(name.push(c)) == stored_name(name).push(c),
{
    reveal(Seq::filter);
    assert(name.push('?').drop_last() =~= name);
    assert(name.push('!').drop_last() =~= name);
    assert(name.push(c).drop_last() =~= name);
    assert(stored_name(Seq::empty()) =~= Seq::<char>::empty());
}

/// A name without question and exclamation marks is stored unchanged.
pub proof fn name_without_marks_is_kept(name: Seq<char>)
    requires
        !name.contains('?'),
        !name.contains('!'),
    ensures
        stored_name(name) == name,
    decreases name.len(),
{
    if name.len() > 0 {
        let front = name.drop_last();
        assert(name.contains(name.last()));
        assert forall|i: int| 0 <= i < front.len() implies front[i] != '?' && front[i] != '!' by {
            assert(name.contains(name[i]));
        }
        name_without_marks_is_kept(front);
        only_marks_are_left_out(front, name.last());
        assert(front.push(name.last()) =~= name);
    } else {
        only_marks_are_left_out(name, 'a');
        assert(name =~= Seq::empty());
    }
}

/// The first chunk is the name in UTF-8, the byte of a question mark, and the content that was read
/// for it; every other chunk is its content.
pub proof fn name_comes_before_the_content(name: Seq<char>, index: nat, content: Seq<u8>)
    ensures
        chunk_bytes(name, 0, content) == encode_utf8(name) + seq![63u8] + content,
        index > 0 ==> chunk_bytes(name, index, content) == content,
{
    name_header_ends_the_name(name);
}

proof fn name_header_ends_the_name(name: Seq<char>)
    ensures
        name_header(name) == encode_utf8(name) + seq![63u8],
{
    text::encode_utf8_concat(name, seq!['?']);
    assert(name.push('?') =~= name + seq!['?']);
    assert(encode_utf8(seq!['?']) =~= encode_scalar('?' as u32)) by {
        reveal_with_fuel(encode_utf8, 2);
    }
    assert((63u32 & 0x7F) as u8 == 63) by (bit_vector);
    assert(encode_scalar('?' as u32) =~= seq![63u8]);
}

/// There is one chunk for each read, in the order of the reads.
pub proof fn one_chunk_for_each_read(name: Seq<char>, reads: Seq<Seq<u8>>, i: int)
    requires
        0 <= i < reads.len(),
    ensures
        chunks_of(name, reads).len() == reads.len(),
        i == 0 ==> chunks_of(name, reads)[i] == encode_utf8(name) + seq![63u8] + reads[i],
        i > 0 ==> chunks_of(name, reads)[i] == reads[i],
{
    name_comes_before_the_content(name, i as nat, reads[i]);
}

/// Joining puts each piece behind the ones before it, all of it and nothing else.
pub proof fn joining_appends(pieces: Seq<Seq<u8>>, piece: Seq<u8>)
    ensures
        joined(Seq::empty()) == Seq::<u8>::empty(),
        joined(pieces.push(piece)) == joined(pieces) + piece,
{
    assert(pieces.push(piece).drop_last() =~= pieces);
}

/// Whatever bytes stand before the first question mark are the name, and all bytes behind it are the
/// content; without a question mark all is name.
pub proof fn first_question_mark_parts_the_bytes(name: Seq<u8>, content: Seq<u8>)
    requires
        !name.contains(63u8),
    ensures
        unpacked_content(name + seq![63u8] + content) == content,
        unpacked_content(name) == Seq::<u8>::empty(),
        valid_utf8(name) ==> unpacked_name(name + seq![63u8] + content) == decode_utf8(name),
        valid_utf8(name) ==> unpacked_name(name) == decode_utf8(name),
        !valid_utf8(name) ==> unpacked_name(name + seq![63u8] + content) == Seq::new(
            name.len(),
            |i: int| name[i] as char,
        ),
        !valid_utf8(name) ==> unpacked_name(name) == Seq::new(name.len(), |i: int| name[i] as char),
{
    let rest = seq![63u8] + content;
    let bytes = name + seq![63u8] + content;
    assert forall|i: int| 0 <= i < name.len() implies #[trigger] name[i] != NAME_END by {
        assert(name.contains(name[i]));
    }
    assert(bytes =~= name + rest);
    name_len_before_end(name, rest);
    name_len_without_end(name);
    assert(bytes.take(name.len() as int) =~= name);
    assert(name.take(name.len() as int) =~= name);
    assert(unpacked_content(bytes) =~= content);
    assert(byte_chars(name) =~= Seq::new(name.len(), |i: int| name[i] as char));
}

proof fn name_len_without_end(bytes: Seq<u8>)
    requires
        forall|i: int| 0 <= i < bytes.len() ==> #[trigger] bytes[i] != NAME_END,
    ensures
        name_len(bytes) == bytes.len(),
    decreases bytes.len(),
{
    if bytes.len() > 0 {
        name_len_without_end(bytes.drop_first());
    }
}

/// A chunk carries up to 100 megabytes of content, and a question mark ends a name.
pub proof fn chunks_carry_up_to_a_hundred_megabytes()
    ensures
        CHUNK_SIZE == 100_000_000,
        NAME_END == '?' as u8,
{
}

} // verus!
