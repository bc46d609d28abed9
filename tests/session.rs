use tcp_responder::session::{Draft, LineStep, Phase, ReadStep, Session};

fn lines_of(d: &Draft) -> Vec<String> {
    (0..d.len()).map(|i| d.line(i).clone()).collect()
}

fn composing(hex: bool) -> Session {
    let mut s = Session::new(hex);
    let step = s.on_read(b"PING", 4);
    assert!(matches!(step, ReadStep::Show { .. }));
    s
}

fn sent(step: LineStep) -> Vec<u8> {
    match step {
        LineStep::Send(bytes) => bytes,
        _ => panic!("expected the reply to be sent"),
    }
}

#[test]
fn revert_on_empty_draft_keeps_it_empty() {
    let mut d = Draft::new();
    d.revert();
    assert_eq!(d.len(), 0);
    d.push_line("a".to_string());
    d.revert();
    d.revert();
    assert_eq!(d.len(), 0);
}

#[test]
fn assemble_joins_lines_and_adds_blank_line() {
    let mut d = Draft::new();
    assert_eq!(d.assemble(), b"\n".to_vec());
    d.push_line("a".to_string());
    d.push_line(String::new());
    d.push_line("é".to_string());
    assert_eq!(d.assemble(), "a\n\né\n\n".as_bytes().to_vec());
}

#[test]
fn revert_then_new_line_sends_only_new_line() {
    let mut s = composing(false);
    assert!(matches!(s.on_line(Some("GET / HTTP/1.1\n")), LineStep::Appended));
    assert!(matches!(s.on_line(Some("?REVERT?\n")), LineStep::Reverted));
    assert!(matches!(s.on_line(Some("HELLO\n")), LineStep::Appended));
    assert_eq!(lines_of(s.draft()), vec!["HELLO".to_string()]);
    let bytes = sent(s.on_line(Some("?END?\n")));
    assert_eq!(bytes, b"HELLO\n\n".to_vec());
    assert_eq!(s.phase(), Phase::AwaitingPayload);
}

#[test]
fn zero_length_read_closes_session() {
    let mut s = Session::new(true);
    let buf = [0u8; 16];
    assert!(matches!(s.on_read(&buf, 0), ReadStep::PeerClosed));
    assert_eq!(s.phase(), Phase::Closed);
    assert_eq!(s.draft().len(), 0);
}

#[test]
fn read_renders_plain_view_and_hex_when_asked() {
    let mut s = Session::new(true);
    match s.on_read(b"a b\x01", 4) {
        ReadStep::Show { plain, hex } => {
            assert_eq!(plain, b"a b.".to_vec());
            assert_eq!(String::from_utf8(hex.unwrap()).unwrap(), "61  | a.......\n20 62 01  | a.b.....\n");
        }
        _ => panic!("expected the payload to be shown"),
    }
    assert_eq!(s.phase(), Phase::ComposingReply);

    let mut plain_only = Session::new(false);
    match plain_only.on_read(b"xyz", 3) {
        ReadStep::Show { plain, hex } => {
            assert_eq!(plain, b"xyz".to_vec());
            assert!(hex.is_none());
        }
        _ => panic!("expected the payload to be shown"),
    }
}

#[test]
fn largest_payload_is_shown_in_hex_mode() {
    let buf = vec![0u8; 65535];
    let mut s = Session::new(true);
    match s.on_read(&buf, 65535) {
        ReadStep::Show { plain, hex } => {
            assert_eq!(plain.len(), 65535);
            assert_eq!(hex.unwrap().iter().filter(|c| **c == b'\n').count(), 4097);
        }
        _ => panic!("expected the payload to be shown"),
    }
}

#[test]
fn oversized_read_closes_only_that_session() {
    let buf = vec![0u8; 65536];
    let mut a = Session::new(true);
    let mut b = Session::new(false);
    let mut c = composing(false);
    assert!(matches!(a.on_read(&buf, 65536), ReadStep::PayloadTooLarge));
    assert!(matches!(b.on_read(&buf, 65536), ReadStep::PayloadTooLarge));
    assert_eq!(a.phase(), Phase::Closed);
    assert_eq!(b.phase(), Phase::Closed);
    assert_eq!(c.phase(), Phase::ComposingReply);
    assert!(matches!(c.on_line(Some("still here")), LineStep::Appended));
}

#[test]
fn end_of_input_sends_what_was_written() {
    let mut s = composing(false);
    s.on_line(Some("one"));
    s.on_line(Some("two"));
    assert_eq!(sent(s.on_line(None)), b"one\ntwo\n\n".to_vec());
    assert_eq!(s.phase(), Phase::AwaitingPayload);
}

#[test]
fn lines_are_trimmed_and_blank_lines_kept() {
    let mut s = composing(false);
    assert!(matches!(s.on_line(Some("  Host: x \r\n")), LineStep::Appended));
    assert!(matches!(s.on_line(Some("   \n")), LineStep::Appended));
    assert!(matches!(s.on_line(Some("\t?REVERT?  ")), LineStep::Reverted));
    assert!(matches!(s.on_line(Some("?end?")), LineStep::Appended));
    assert_eq!(lines_of(s.draft()), vec!["Host: x".to_string(), "?end?".to_string()]);
    assert_eq!(sent(s.on_line(Some("  ?END?\r\n"))), b"Host: x\n?end?\n\n".to_vec());
}

#[test]
fn trimmed_line_handled_as_given() {
    let mut s = composing(false);
    assert!(matches!(s.on_trimmed(" x ".to_string()), LineStep::Appended));
    assert!(matches!(s.on_trimmed("?REVERT?".to_string()), LineStep::Reverted));
    assert!(matches!(s.on_trimmed("?REVERT?".to_string()), LineStep::Reverted));
    assert_eq!(s.draft().len(), 0);
    assert_eq!(sent(s.on_trimmed("?END?".to_string())), b"\n".to_vec());
}

#[test]
fn next_payload_starts_a_new_draft() {
    let mut s = composing(false);
    s.on_line(Some("first"));
    sent(s.on_line(Some("?END?")));
    assert!(matches!(s.on_read(b"again", 5), ReadStep::Show { .. }));
    assert_eq!(s.draft().len(), 0);
    s.on_line(Some("second"));
    assert_eq!(sent(s.on_line(Some("?END?"))), b"second\n\n".to_vec());
}

#[test]
fn io_error_closes_session() {
    let mut s = composing(true);
    s.on_io_error();
    assert_eq!(s.phase(), Phase::Closed);
    assert!(s.hex_mode());
}

#[test]
fn two_sessions_keep_their_own_drafts() {
    let mut a = Session::new(false);
    let mut b = Session::new(true);
    match a.on_read(b"from a", 6) {
        ReadStep::Show { plain, .. } => assert_eq!(plain, b"from a".to_vec()),
        _ => panic!("expected the payload to be shown"),
    }
    match b.on_read(b"from b", 6) {
        ReadStep::Show { plain, .. } => assert_eq!(plain, b"from b".to_vec()),
        _ => panic!("expected the payload to be shown"),
    }
    a.on_line(Some("a1"));
    b.on_line(Some("b1"));
    a.on_line(Some("a2"));
    b.on_line(Some("?REVERT?"));
    assert_eq!(lines_of(a.draft()), vec!["a1".to_string(), "a2".to_string()]);
    assert_eq!(b.draft().len(), 0);
    assert_eq!(sent(b.on_line(Some("?END?"))), b"\n".to_vec());
    assert_eq!(sent(a.on_line(Some("?END?"))), b"a1\na2\n\n".to_vec());
}
