use paster::clipboard::decode_clipboard;

fn utf16(s: &str) -> Vec<u16> {
    s.encode_utf16().collect()
}

#[test]
fn crlf_becomes_lf_only() {
    let raw = utf16("a\r\nb");
    let units = decode_clipboard(&raw);
    assert_eq!(units, vec![97, 10, 98]);
    assert!(!units.contains(&13));
    assert!(units.contains(&10));
}

#[test]
fn crlf_with_terminator() {
    let mut raw = utf16("line one\r\nline two\r\n");
    raw.push(0);
    let units = decode_clipboard(&raw);
    let expected: Vec<u16> = utf16("line one\nline two\n");
    assert_eq!(units, expected);
}

#[test]
fn stops_at_first_nul() {
    let raw = vec![104, 105, 0, 33, 33];
    let units = decode_clipboard(&raw);
    assert_eq!(units, vec![104, 105]);
}

#[test]
fn leading_nul_yields_nothing() {
    let raw = vec![0, 104, 105];
    assert_eq!(decode_clipboard(&raw), Vec::<u16>::new());
}

#[test]
fn empty_buffer_yields_nothing() {
    assert_eq!(decode_clipboard(&Vec::new()), Vec::<u16>::new());
}

#[test]
fn only_carriage_returns_yield_nothing() {
    let raw = vec![13, 13, 13];
    assert_eq!(decode_clipboard(&raw), Vec::<u16>::new());
}

#[test]
fn bare_carriage_return_is_dropped_too() {
    let raw = utf16("a\rb");
    assert_eq!(decode_clipboard(&raw), vec![97, 98]);
}

#[test]
fn surrogate_pairs_pass_through() {
    let raw = utf16("\u{1F600}");
    assert_eq!(raw.len(), 2);
    let units = decode_clipboard(&raw);
    assert_eq!(units, raw);
}

#[test]
fn cr_before_nul_after_nul_ignored() {
    let raw = vec![97, 13, 10, 0, 13, 98];
    assert_eq!(decode_clipboard(&raw), vec![97, 10]);
}
