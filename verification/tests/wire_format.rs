//! Exact renderings and parses of the header fragments the upload protocol
//! exchanges.

use facilitator::wire::{content_range_header, format_decimal, parse_range_end};

#[test]
fn decimal_rendering() {
    assert_eq!(format_decimal(0), b"0".to_vec());
    assert_eq!(format_decimal(7), b"7".to_vec());
    assert_eq!(format_decimal(10), b"10".to_vec());
    assert_eq!(format_decimal(8388608), b"8388608".to_vec());
    assert_eq!(format_decimal(usize::MAX), usize::MAX.to_string().into_bytes());
}

#[test]
fn content_range_rendering() {
    assert_eq!(content_range_header(0, 6, Some(7)), b"bytes 0-6/7".to_vec());
    assert_eq!(content_range_header(0, 3, None), b"bytes 0-3/*".to_vec());
    assert_eq!(content_range_header(4, 7, None), b"bytes 4-7/*".to_vec());
    assert_eq!(content_range_header(7, 9, Some(10)), b"bytes 7-9/10".to_vec());
}

#[test]
fn range_header_parsing() {
    assert_eq!(parse_range_end(b"bytes=0-0"), Some(0));
    assert_eq!(parse_range_end(b"bytes=0-3"), Some(3));
    assert_eq!(parse_range_end(b"bytes=0-222"), Some(222));
    // leading zeros are accepted, as the usual integer parsers accept them
    assert_eq!(parse_range_end(b"bytes=0-007"), Some(7));
}

#[test]
fn range_header_rejections() {
    assert_eq!(parse_range_end(b""), None);
    assert_eq!(parse_range_end(b"bytes=0-"), None);
    assert_eq!(parse_range_end(b"bytes=1-5"), None);
    assert_eq!(parse_range_end(b"bytes 0-5"), None);
    assert_eq!(parse_range_end(b"bytes=0-5x"), None);
    assert_eq!(parse_range_end(b"bytes=0--5"), None);
}

#[test]
fn range_header_overflow() {
    let max = usize::MAX.to_string();
    let fits = format!("bytes=0-{}", max);
    assert_eq!(parse_range_end(fits.as_bytes()), Some(usize::MAX));
    let too_big = format!("bytes=0-{}0", max);
    assert_eq!(parse_range_end(too_big.as_bytes()), None);
}
