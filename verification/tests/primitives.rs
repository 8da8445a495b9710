use pascal_io::capability::PascalFile;
use pascal_io::ops::break_in;
use pascal_io::ops::break_out;
use pascal_io::ops::buffer_variable;
use pascal_io::ops::buffer_variable_assign;
use pascal_io::ops::close;
use pascal_io::ops::eof;
use pascal_io::ops::eoln;
use pascal_io::ops::erstat;
use pascal_io::ops::get;
use pascal_io::ops::put;
use pascal_io::ops::read_ln;
use pascal_io::ops::read_onearg;
use pascal_io::ops::reset;
use pascal_io::ops::rewrite;
use pascal_io::ops::write_binary;
use pascal_io::ops::write_ln;
use pascal_io::ops::write_ln_noargs;
use pascal_io::ops::OpenForRead;
use pascal_io::source::ByteSink;
use pascal_io::source::ByteSource;
use pascal_io::source::LineSource;
use pascal_io::state::FileState;
use pascal_io::units::BinaryWordFile;
use pascal_io::units::TextByteFile;

fn open_text(bytes: &[u8], terminal: bool) -> TextByteFile {
    let mut f = TextByteFile::new();
    let source = LineSource::new(bytes.to_vec());
    reset(
        &mut f,
        Ok(OpenForRead::TextOpened {
            source,
            is_terminal: terminal,
        }),
    );
    f
}

fn open_binary(bytes: &[u8]) -> BinaryWordFile {
    let mut f = BinaryWordFile::new();
    let source = ByteSource::new(bytes.to_vec());
    reset(&mut f, Ok(OpenForRead::BinaryOpened { source }));
    f
}

fn sink_contents_text(f: &TextByteFile) -> Vec<u8> {
    match &f.state {
        FileState::GenerationMode { write_target, .. } => write_target.data.clone(),
        _ => panic!("not in writing mode"),
    }
}

fn sink_contents_binary(f: &BinaryWordFile) -> Vec<u8> {
    match &f.state {
        FileState::GenerationMode { write_target, .. } => write_target.data.clone(),
        _ => panic!("not in writing mode"),
    }
}

#[test]
fn two_lines_without_trailing_newline() {
    // Text source "ab\ncd": units [a, b, EOL] then [c, d, EOL (synthesized)];
    // end-of-file only after both lines are consumed.
    let mut f = open_text(b"ab\ncd", false);
    assert!(!eof(&mut f));
    assert_eq!(read_onearg(&mut f), b'a');
    assert_eq!(read_onearg(&mut f), b'b');
    assert!(eoln(&mut f));
    assert_eq!(buffer_variable(&mut f), b'\n');
    get(&mut f);
    assert!(!eof(&mut f));
    assert_eq!(read_onearg(&mut f), b'c');
    assert_eq!(read_onearg(&mut f), b'd');
    assert!(eoln(&mut f));
    assert_eq!(buffer_variable(&mut f), b'\n');
    get(&mut f);
    assert!(eof(&mut f));
}

#[test]
fn last_line_gets_synthesized_terminator() {
    // A lone "x" with no trailing newline still ends in a terminator and
    // end-of-line is true at that final position.
    let mut f = open_text(b"x", false);
    assert_eq!(read_onearg(&mut f), b'x');
    assert!(eoln(&mut f));
    assert_eq!(buffer_variable(&mut f), b'\n');
}

#[test]
fn interactive_source_starts_at_end_of_line() {
    // An interactive source with zero prior input is immediately loaded
    // with a single synthetic terminator: end-of-line true before any
    // physical read.
    let mut f = open_text(b"", true);
    assert!(!eof(&mut f));
    assert!(eoln(&mut f));
    assert_eq!(buffer_variable(&mut f), b'\n');
}

#[test]
fn empty_input_is_immediately_at_end_of_file() {
    let mut f = open_text(b"", false);
    assert!(eof(&mut f));
}

#[test]
fn empty_binary_input_is_immediately_at_end_of_file() {
    let mut f = open_binary(b"");
    assert!(eof(&mut f));
}

#[test]
fn eof_and_eoln_are_idempotent() {
    let mut f = open_text(b"a\nb", false);
    assert_eq!(eof(&mut f), eof(&mut f));
    assert_eq!(eoln(&mut f), eoln(&mut f));
    assert_eq!(read_onearg(&mut f), b'a');
    assert_eq!(eoln(&mut f), true);
    assert_eq!(eoln(&mut f), true);
    assert_eq!(eof(&mut f), false);
    assert_eq!(eof(&mut f), false);
}

#[test]
fn repeated_peeks_return_the_same_unit() {
    let mut f = open_binary(&[1, 0, 0, 0, 2, 0, 0, 0]);
    assert_eq!(buffer_variable(&mut f), 1);
    assert_eq!(buffer_variable(&mut f), 1);
    assert_eq!(buffer_variable(&mut f), 1);
    get(&mut f);
    assert_eq!(buffer_variable(&mut f), 2);
    assert_eq!(buffer_variable(&mut f), 2);
}

#[test]
fn ten_bytes_give_two_whole_units_then_eof() {
    // Binary source of 10 bytes with unit size 4: units decode from bytes
    // [0..4) and [4..8); the third advance finds only 2 leftover bytes and
    // a dry source, and reaches end-of-file.
    let mut f = open_binary(&[0, 1, 2, 3, 4, 5, 6, 7, 8, 9]);
    assert!(!eof(&mut f));
    assert_eq!(read_onearg(&mut f), 0x03020100);
    assert_eq!(read_onearg(&mut f), 0x07060504);
    assert!(eof(&mut f));
}

#[test]
fn binary_round_trip_via_stage_and_commit() {
    // Committing units leaves their blob concatenation in the sink;
    // reopening those bytes yields the same units back.
    let units: [u32; 3] = [0xDEADBEEF, 42, 0];
    let mut w = BinaryWordFile::new();
    rewrite(&mut w, Ok(ByteSink::new()));
    for u in units {
        buffer_variable_assign(&mut w, u);
        put(&mut w);
    }
    let bytes = sink_contents_binary(&w);
    assert_eq!(bytes, vec![0xEF, 0xBE, 0xAD, 0xDE, 42, 0, 0, 0, 0, 0, 0, 0]);
    let mut r = open_binary(&bytes);
    for u in units {
        assert_eq!(read_onearg(&mut r), u);
    }
    assert!(eof(&mut r));
}

#[test]
fn text_round_trip_through_a_sink() {
    let mut w = TextByteFile::new();
    rewrite(&mut w, Ok(ByteSink::new()));
    write_ln(&mut w, &b"hi".to_vec());
    pascal_io::ops::write(&mut w, &b"there".to_vec());
    let bytes = sink_contents_text(&w);
    assert_eq!(bytes, b"hi\nthere".to_vec());
    let mut r = open_text(&bytes, false);
    assert_eq!(read_onearg(&mut r), b'h');
    assert_eq!(read_onearg(&mut r), b'i');
    assert!(eoln(&mut r));
    get(&mut r);
    assert_eq!(read_onearg(&mut r), b't');
    assert_eq!(read_onearg(&mut r), b'h');
    assert_eq!(read_onearg(&mut r), b'e');
    assert_eq!(read_onearg(&mut r), b'r');
    assert_eq!(read_onearg(&mut r), b'e');
    assert!(eoln(&mut r));
    get(&mut r);
    assert!(eof(&mut r));
}

#[test]
fn crlf_line_ending_is_normalized() {
    let mut f = open_text(b"ab\r\ncd", false);
    assert_eq!(read_onearg(&mut f), b'a');
    assert_eq!(read_onearg(&mut f), b'b');
    assert!(eoln(&mut f));
    assert_eq!(buffer_variable(&mut f), b'\n');
    get(&mut f);
    assert_eq!(read_onearg(&mut f), b'c');
}

#[test]
fn read_ln_skips_to_the_next_line() {
    let mut f = open_text(b"abc\nxy\n", false);
    assert_eq!(read_onearg(&mut f), b'a');
    read_ln(&mut f);
    assert_eq!(read_onearg(&mut f), b'x');
    assert_eq!(read_onearg(&mut f), b'y');
    read_ln(&mut f);
    // Past the last physical line the engine serves one synthetic
    // terminator-only line before reporting end-of-file.
    assert!(!eof(&mut f));
    assert!(eoln(&mut f));
    get(&mut f);
    assert!(eof(&mut f));
}

#[test]
fn direct_write_discards_the_staged_unit() {
    let mut w = TextByteFile::new();
    rewrite(&mut w, Ok(ByteSink::new()));
    buffer_variable_assign(&mut w, b'y');
    pascal_io::ops::write(&mut w, &b"z".to_vec());
    assert_eq!(sink_contents_text(&w), b"z".to_vec());
    match &w.state {
        FileState::GenerationMode { write_buffer, .. } => assert!(write_buffer.is_none()),
        _ => panic!("not in writing mode"),
    }
}

#[test]
fn staged_unit_is_replaced_by_a_new_assignment() {
    let mut w = TextByteFile::new();
    rewrite(&mut w, Ok(ByteSink::new()));
    buffer_variable_assign(&mut w, b'a');
    buffer_variable_assign(&mut w, b'b');
    put(&mut w);
    assert_eq!(sink_contents_text(&w), b"b".to_vec());
}

#[test]
fn write_ln_noargs_and_write_binary_append_to_the_sink() {
    let mut w = TextByteFile::new();
    rewrite(&mut w, Ok(ByteSink::new()));
    pascal_io::ops::write(&mut w, &b"a".to_vec());
    write_ln_noargs(&mut w);
    write_binary(&mut w, 7u8);
    break_out(&mut w);
    assert_eq!(sink_contents_text(&w), vec![b'a', b'\n', 7]);
}

#[test]
fn writing_handle_reports_end_of_file() {
    let mut w = TextByteFile::new();
    rewrite(&mut w, Ok(ByteSink::new()));
    assert!(eof(&mut w));
}

#[test]
fn failed_open_records_the_error_code() {
    let mut f = TextByteFile::new();
    reset(&mut f, Err(5));
    assert_eq!(erstat(&mut f), 5);
    assert!(matches!(f.state, FileState::Undefined));
    let mut w = TextByteFile::new();
    rewrite(&mut w, Err(9));
    assert_eq!(erstat(&mut w), 9);
    assert!(matches!(w.state, FileState::Undefined));
}

#[test]
fn successful_open_clears_the_error_code() {
    let mut f = TextByteFile::new();
    reset(&mut f, Err(5));
    assert_eq!(erstat(&mut f), 5);
    let source = LineSource::new(b"a".to_vec());
    reset(
        &mut f,
        Ok(OpenForRead::TextOpened {
            source,
            is_terminal: false,
        }),
    );
    assert_eq!(erstat(&mut f), 0);
}

#[test]
fn close_returns_the_handle_to_closed() {
    let mut f = open_text(b"abc", false);
    close(&mut f);
    assert!(matches!(f.state, FileState::Undefined));
}

#[test]
fn break_in_reseeds_an_interactive_handle() {
    // On an interactive handle the resume after a line break re-seeds a
    // synthetic terminator line, so end-of-line is true again.
    let mut f = open_text(b"", true);
    assert!(eoln(&mut f));
    break_in(&mut f, true);
    assert!(eoln(&mut f));
    assert_eq!(buffer_variable(&mut f), b'\n');
}

#[test]
fn break_in_defers_the_next_refill_on_a_plain_handle() {
    let mut f = open_text(b"a\nb\n", false);
    assert_eq!(read_onearg(&mut f), b'a');
    break_in(&mut f, true);
    assert_eq!(read_onearg(&mut f), b'b');
}

#[test]
fn break_in_at_the_last_line_reaches_end_of_file() {
    let mut f = open_text(b"a", false);
    assert_eq!(read_onearg(&mut f), b'a');
    break_in(&mut f, true);
    assert!(eof(&mut f));
}

#[test]
fn sliding_window_preserves_unconsumed_bytes() {
    // 600 bytes of distinct values force a refill past the first window;
    // every unit still decodes from its own four source bytes.
    let bytes: Vec<u8> = (0..600u32).map(|i| (i % 251) as u8).collect();
    let mut f = open_binary(&bytes);
    for k in 0..150usize {
        let b0 = bytes[4 * k] as u32;
        let b1 = bytes[4 * k + 1] as u32;
        let b2 = bytes[4 * k + 2] as u32;
        let b3 = bytes[4 * k + 3] as u32;
        let expected = b0 | (b1 << 8) | (b2 << 16) | (b3 << 24);
        assert_eq!(read_onearg(&mut f), expected);
    }
    assert!(eof(&mut f));
}
