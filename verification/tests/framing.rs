use free_storage::framing::{
    chunk_buffer, prepend_slice, sanitize_file_name, unpack, CHUNK_SIZE, NAME_END,
};

#[test]
fn marks_are_left_out_of_names() {
    assert_eq!(sanitize_file_name("what?!.txt"), "what.txt");
    assert_eq!(sanitize_file_name("?!?!"), "");
    assert_eq!(sanitize_file_name(""), "");
    assert_eq!(sanitize_file_name("plain-name_1.tar.gz"), "plain-name_1.tar.gz");
    assert_eq!(sanitize_file_name("naïve?.md"), "naïve.md");
}

#[test]
fn cleaning_a_name_twice_changes_nothing_more() {
    let once = sanitize_file_name("a!b?c");
    assert_eq!(once, "abc");
    assert_eq!(sanitize_file_name(&once), once);
}

#[test]
fn slice_goes_in_front() {
    let mut numbers = vec![4u32, 5];
    prepend_slice(&mut numbers, &[1, 2, 3]);
    assert_eq!(numbers, vec![1, 2, 3, 4, 5]);

    let mut empty: Vec<u8> = Vec::new();
    prepend_slice(&mut empty, b"ab");
    assert_eq!(empty, b"ab".to_vec());

    let mut unchanged = vec!['x'];
    prepend_slice(&mut unchanged, &[]);
    assert_eq!(unchanged, vec!['x']);
}

#[test]
fn buffer_holds_a_hundred_megabytes_of_zeros() {
    let buffer = chunk_buffer();
    assert_eq!(CHUNK_SIZE, 100_000_000);
    assert_eq!(buffer.len(), 100_000_000);
    assert_eq!(buffer[0], 0);
    assert_eq!(buffer[99_999_999], 0);
}

#[test]
fn name_ends_at_the_first_question_mark() {
    assert_eq!(NAME_END, b'?');
    assert_eq!(
        unpack(b"a.txt?hello".to_vec()),
        (b"hello".to_vec(), "a.txt".to_string())
    );
    assert_eq!(
        unpack(b"a.txt?why?".to_vec()),
        (b"why?".to_vec(), "a.txt".to_string())
    );
    assert_eq!(unpack(b"?".to_vec()), (Vec::new(), String::new()));
    assert_eq!(
        unpack(b"?content".to_vec()),
        (b"content".to_vec(), String::new())
    );
}

#[test]
fn without_a_question_mark_all_is_name() {
    assert_eq!(
        unpack(b"no mark".to_vec()),
        (Vec::new(), "no mark".to_string())
    );
    assert_eq!(unpack(Vec::new()), (Vec::new(), String::new()));
}

#[test]
fn names_in_any_script_come_back() {
    for (name, content) in [("é", "abc"), ("日本", ""), ("naïve 🦀.md", "why?"), ("ß", "0123456789")] {
        let mut stored = name.as_bytes().to_vec();
        stored.push(NAME_END);
        stored.extend_from_slice(content.as_bytes());
        assert_eq!(
            unpack(stored),
            (content.as_bytes().to_vec(), name.to_string())
        );
    }
}

#[test]
fn name_that_is_no_text_comes_back_byte_by_byte() {
    let stored = vec![b'a', 0xE9, 0xFF, b'?', 0xC3, 0xA9];
    assert_eq!(
        unpack(stored),
        (vec![0xC3, 0xA9], "a\u{e9}\u{ff}".to_string())
    );
}
