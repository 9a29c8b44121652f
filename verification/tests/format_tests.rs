use spicat::format::{format_capture, render_session, resolve_format, OutputFormat};

#[test]
fn resolve_explicit_overrides_interactive() {
    assert_eq!(resolve_format(Some(OutputFormat::Raw), true), OutputFormat::Raw);
    assert_eq!(resolve_format(Some(OutputFormat::Decimal), true), OutputFormat::Decimal);
}

#[test]
fn resolve_explicit_overrides_non_interactive() {
    assert_eq!(resolve_format(Some(OutputFormat::Hexadecimal), false), OutputFormat::Hexadecimal);
}

#[test]
fn resolve_auto_interactive_is_hexadecimal() {
    assert_eq!(resolve_format(None, true), OutputFormat::Hexadecimal);
}

#[test]
fn resolve_auto_non_interactive_is_raw() {
    assert_eq!(resolve_format(None, false), OutputFormat::Raw);
}

#[test]
fn hexadecimal_renders_ab_payload() {
    let capture = vec![0x41u8, 0x42u8];
    let out = format_capture(&capture, OutputFormat::Hexadecimal);
    assert_eq!(out, b"41 42\n".to_vec());
}

#[test]
fn decimal_renders_ab_payload() {
    let capture = vec![0x41u8, 0x42u8];
    let out = format_capture(&capture, OutputFormat::Decimal);
    assert_eq!(out, b"65 66\n".to_vec());
}

#[test]
fn raw_renders_bytes_verbatim() {
    let capture = vec![0x00u8, 0xFF, 0x20, 0x0A];
    let out = format_capture(&capture, OutputFormat::Raw);
    assert_eq!(out, capture);
}

#[test]
fn raw_empty_capture_renders_zero_bytes() {
    let capture: Vec<u8> = Vec::new();
    let out = format_capture(&capture, OutputFormat::Raw);
    assert!(out.is_empty());
}

#[test]
fn hexadecimal_empty_capture_renders_empty_line() {
    let capture: Vec<u8> = Vec::new();
    let out = format_capture(&capture, OutputFormat::Hexadecimal);
    assert_eq!(out, b"\n".to_vec());
}

#[test]
fn decimal_empty_capture_renders_empty_line() {
    let capture: Vec<u8> = Vec::new();
    let out = format_capture(&capture, OutputFormat::Decimal);
    assert_eq!(out, b"\n".to_vec());
}

#[test]
fn hexadecimal_digits_are_uppercase_and_zero_padded() {
    let capture = vec![0x00u8, 0x0F, 0xA5, 0xFF];
    let out = format_capture(&capture, OutputFormat::Hexadecimal);
    assert_eq!(out, b"00 0F A5 FF\n".to_vec());
}

#[test]
fn decimal_has_no_leading_zeros() {
    let capture = vec![0u8, 9, 10, 99, 100, 255];
    let out = format_capture(&capture, OutputFormat::Decimal);
    assert_eq!(out, b"0 9 10 99 100 255\n".to_vec());
}

#[test]
fn single_byte_renders_without_separator() {
    let capture = vec![7u8];
    assert_eq!(format_capture(&capture, OutputFormat::Decimal), b"7\n".to_vec());
    assert_eq!(format_capture(&capture, OutputFormat::Hexadecimal), b"07\n".to_vec());
}

#[test]
fn textual_renderings_are_well_separated() {
    for fmt in [OutputFormat::Hexadecimal, OutputFormat::Decimal] {
        let capture = vec![0u8, 1, 16, 32, 200, 255];
        let out = format_capture(&capture, fmt);
        let line = &out[..out.len() - 1];
        assert_eq!(*out.last().unwrap(), b'\n');
        assert!(!line.contains(&b'\n'));
        assert!(!line.starts_with(b" "));
        assert!(!line.ends_with(b" "));
        let text = String::from_utf8(line.to_vec()).unwrap();
        assert!(!text.contains("  "));
    }
}

#[test]
fn session_of_two_raw_captures_is_their_concatenation() {
    let captures = vec![vec![0x11u8], vec![0x22u8]];
    let out = render_session(&captures, OutputFormat::Raw);
    assert_eq!(out, vec![0x11u8, 0x22u8]);
}

#[test]
fn session_emits_one_block_per_capture() {
    let captures = vec![vec![1u8, 2], vec![3u8], vec![]];
    let out = render_session(&captures, OutputFormat::Decimal);
    assert_eq!(out, b"1 2\n3\n\n".to_vec());
}

#[test]
fn session_blocks_do_not_leak_across_iterations() {
    let first = render_session(&vec![vec![0xAAu8]], OutputFormat::Hexadecimal);
    let both = render_session(&vec![vec![0xAAu8], vec![0xBBu8]], OutputFormat::Hexadecimal);
    assert_eq!(&both[..first.len()], &first[..]);
    assert_eq!(&both[first.len()..], b"BB\n");
}

#[test]
fn session_of_zero_captures_is_empty() {
    let captures: Vec<Vec<u8>> = Vec::new();
    assert!(render_session(&captures, OutputFormat::Hexadecimal).is_empty());
}
