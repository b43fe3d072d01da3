use raw_output::decoding::{finish_decoding, parse_codings, ContentEncoding, HttpError};
use raw_output::error::Error;
use raw_output::http::{Header, HeaderVec, HttpVersion};
use raw_output::position::{Pos, SourceInfo};
use raw_output::sink::{Output, Pending, Stdout, WriteMode};
use raw_output::text::{equal_ignoring_case, push_all, push_decimal, space, to_lower, trimmed};

#[test]
fn decimal_digits() {
    for (n, expected) in [
        (0u32, "0"),
        (9, "9"),
        (10, "10"),
        (99, "99"),
        (100, "100"),
        (204, "204"),
        (65535, "65535"),
        (4294967295, "4294967295"),
    ] {
        let mut out = b"n=".to_vec();
        push_decimal(&mut out, n);
        assert_eq!(String::from_utf8(out).unwrap(), format!("n={}", expected));
    }
}

#[test]
fn push_all_appends_in_order() {
    let mut out = vec![1u8, 2];
    push_all(&mut out, &[3, 4, 5]);
    push_all(&mut out, &[]);
    assert_eq!(out, vec![1, 2, 3, 4, 5]);
}

#[test]
fn lower_case_of_letters_only() {
    assert_eq!(to_lower(b'A'), b'a');
    assert_eq!(to_lower(b'Z'), b'z');
    assert_eq!(to_lower(b'a'), b'a');
    assert_eq!(to_lower(b'@'), b'@');
    assert_eq!(to_lower(b'['), b'[');
    assert_eq!(to_lower(b'-'), b'-');
    assert_eq!(to_lower(0xc9), 0xc9);
    assert!(equal_ignoring_case(b"Content-Encoding", b"content-encoding"));
    assert!(equal_ignoring_case(b"", b""));
    assert!(!equal_ignoring_case(b"content-encoding", b"content-encodin"));
    assert!(!equal_ignoring_case(b"content_encoding", b"content-encoding"));
}

#[test]
fn trimming_ascii_whitespace() {
    assert!(space(b' ') && space(b'\t') && space(b'\n') && space(b'\r'));
    assert!(space(0x0b) && space(0x0c));
    assert!(!space(b'a') && !space(0) && !space(8) && !space(14) && !space(0xa0));
    let s = b"ab,  \t gzip \r\n,cd";
    assert_eq!(trimmed(s, 3, 13), b"gzip".to_vec());
    assert_eq!(trimmed(s, 0, 2), b"ab".to_vec());
    assert_eq!(trimmed(s, 3, 7), Vec::<u8>::new());
    assert_eq!(trimmed(s, 5, 5), Vec::<u8>::new());
    assert_eq!(trimmed(b" a b ", 0, 5), b"a b".to_vec());
}

#[test]
fn coding_names() {
    assert_eq!(ContentEncoding::parse(b"br"), Some(ContentEncoding::Brotli));
    assert_eq!(ContentEncoding::parse(b"gzip"), Some(ContentEncoding::Gzip));
    assert_eq!(ContentEncoding::parse(b"deflate"), Some(ContentEncoding::Deflate));
    assert_eq!(ContentEncoding::parse(b"identity"), Some(ContentEncoding::Identity));
    for other in [&b""[..], b"b", b"bra", b"gzi", b"gzip ", b"Gzip", b"deflat3", b"identit", b"x-gzip"] {
        assert_eq!(ContentEncoding::parse(other), None);
    }
}

#[test]
fn coding_lists() {
    assert_eq!(parse_codings(b"gzip"), Ok(vec![ContentEncoding::Gzip]));
    assert_eq!(
        parse_codings(b"br,gzip , deflate,identity"),
        Ok(vec![
            ContentEncoding::Brotli,
            ContentEncoding::Gzip,
            ContentEncoding::Deflate,
            ContentEncoding::Identity
        ])
    );
    assert_eq!(
        parse_codings(b"gzip,,br"),
        Err(HttpError::UnsupportedContentEncoding { description: vec![] })
    );
    assert_eq!(
        parse_codings(b"gzip, compress, nope"),
        Err(HttpError::UnsupportedContentEncoding { description: b"compress".to_vec() })
    );
    assert_eq!(
        parse_codings(b","),
        Err(HttpError::UnsupportedContentEncoding { description: vec![] })
    );
}

#[test]
fn finish_decoding_of_each_outcome() {
    assert_eq!(finish_decoding(ContentEncoding::Gzip, Some(vec![1, 2])), Ok(vec![1, 2]));
    assert_eq!(
        finish_decoding(ContentEncoding::Deflate, None),
        Err(HttpError::CouldNotUncompressResponse { encoding: ContentEncoding::Deflate })
    );
}

#[test]
fn positions() {
    assert_eq!(Pos::new(3, 7), Pos { line: 3, column: 7 });
    let info = SourceInfo::new(Pos::new(1, 2), Pos::new(3, 4));
    assert_eq!(info.start, Pos { line: 1, column: 2 });
    assert_eq!(info.end, Pos { line: 3, column: 4 });
    assert_eq!(SourceInfo::unlocated(), SourceInfo::new(Pos::new(0, 0), Pos::new(0, 0)));
}

#[test]
fn undecodable_error_has_no_location() {
    let cause = HttpError::UnsupportedContentEncoding { description: b"zstd".to_vec() };
    let error = Error::undecodable(cause.clone());
    assert_eq!(error.source_info, SourceInfo::unlocated());
    assert_eq!(error.inner, cause);
    assert!(!error.fatal);
}

#[test]
fn header_list_keeps_order_and_repeats() {
    let mut headers = HeaderVec::new();
    assert!(headers.is_empty());
    headers.push(Header::new("a", "1"));
    headers.push(Header::new("a", "1"));
    headers.push(Header::new("b", "2"));
    assert_eq!(headers.len(), 3);
    assert!(!headers.is_empty());
    assert_eq!(headers.headers[1], Header { name: "a".to_string(), value: "1".to_string() });
    assert_eq!(headers.headers[2].name, "b");
}

#[test]
fn version_text() {
    for (version, expected) in [
        (HttpVersion::Http10, "HTTP/1.0"),
        (HttpVersion::Http11, "HTTP/1.1"),
        (HttpVersion::Http2, "HTTP/2"),
        (HttpVersion::Http3, "HTTP/3"),
    ] {
        let mut out = vec![b'>'];
        version.write_to(&mut out);
        assert_eq!(String::from_utf8(out).unwrap(), format!(">{}", expected));
    }
    assert_eq!(HttpVersion::default(), HttpVersion::Http10);
}

#[test]
fn destinations() {
    let mut buffered = Stdout::new(WriteMode::Buffered);
    assert_eq!(Output::Stdout.write(b"ab", &mut buffered), Pending::Nothing);
    assert_eq!(Output::Stdout.write(b"cd", &mut buffered), Pending::Nothing);
    assert_eq!(buffered.buffer(), b"abcd");
    let mut immediate = Stdout::new(WriteMode::Immediate);
    assert_eq!(Output::Stdout.write(b"ab", &mut immediate), Pending::Stdout(b"ab".to_vec()));
    assert!(immediate.buffer().is_empty());
    let file = Output::File("f".to_string());
    assert_eq!(file.write(b"ab", &mut buffered), Pending::File("f".to_string(), b"ab".to_vec()));
    assert_eq!(buffered.buffer(), b"abcd");
}
