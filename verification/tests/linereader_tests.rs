use transcode_progress::linereader::StreamLineReader;

#[test]
fn line_split_across_two_reads_is_reassembled() {
    let mut r = StreamLineReader::new();
    r.push_chunk(b"out_time=00:");
    assert_eq!(r.next_line(), None);
    r.push_chunk(b"01:00\n");
    assert_eq!(r.next_line(), Some(b"out_time=00:01:00".to_vec()));
    assert_eq!(r.next_line(), None);
}

#[test]
fn several_lines_in_one_chunk() {
    let mut r = StreamLineReader::new();
    r.push_chunk(b"a\nbb\nccc");
    assert_eq!(r.next_line(), Some(b"a".to_vec()));
    assert_eq!(r.next_line(), Some(b"bb".to_vec()));
    assert_eq!(r.next_line(), None);
    r.push_chunk(b"\n");
    assert_eq!(r.next_line(), Some(b"ccc".to_vec()));
}

#[test]
fn remainder_is_the_unterminated_final_line() {
    let mut r = StreamLineReader::new();
    r.push_chunk(b"x\ntail");
    assert_eq!(r.next_line(), Some(b"x".to_vec()));
    assert_eq!(r.take_remainder(), Some(b"tail".to_vec()));
    assert_eq!(r.take_remainder(), None);
}

#[test]
fn clean_end_of_stream_yields_nothing() {
    let mut r = StreamLineReader::new();
    r.push_chunk(b"done\n");
    assert_eq!(r.next_line(), Some(b"done".to_vec()));
    assert_eq!(r.take_remainder(), None);
}

#[test]
fn empty_line_is_a_line() {
    let mut r = StreamLineReader::new();
    r.push_chunk(b"\n\n");
    assert_eq!(r.next_line(), Some(Vec::new()));
    assert_eq!(r.next_line(), Some(Vec::new()));
    assert_eq!(r.next_line(), None);
}
