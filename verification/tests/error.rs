use lzma_rs::error::Error;

#[test]
fn test_display() {
    assert_eq!(
        Error::IOError(std::io::Error::new(
            std::io::ErrorKind::Other,
            "this is an error"
        ))
        .to_display_string(),
        "io error: this is an error"
    );
    assert_eq!(
        Error::LZMAError("this is an error".to_string()).to_display_string(),
        "lzma error: this is an error"
    );
    assert_eq!(
        Error::XZError("this is an error".to_string()).to_display_string(),
        "xz error: this is an error"
    );
}

#[test]
fn test_display_header_too_short() {
    let e = Error::HeaderTooShort(std::io::Error::new(
        std::io::ErrorKind::UnexpectedEof,
        "unexpected end of input",
    ));
    assert_eq!(
        e.to_display_string(),
        "header too short: unexpected end of input"
    );
}

#[test]
fn test_source_io_error() {
    let e = Error::IOError(std::io::Error::new(
        std::io::ErrorKind::Other,
        "disk gone",
    ));
    let cause = e.source().expect("an I/O error carries a cause");
    assert_eq!(cause.to_string(), "disk gone");
    assert_eq!(e.to_display_string(), format!("io error: {}", cause));
}

#[test]
fn test_source_header_too_short() {
    let e = Error::HeaderTooShort(std::io::Error::new(
        std::io::ErrorKind::UnexpectedEof,
        "early eof",
    ));
    let cause = e.source().expect("a truncated header carries a cause");
    assert_eq!(cause.to_string(), "early eof");
    assert_eq!(e.to_display_string(), format!("header too short: {}", cause));
}

#[test]
fn test_source_codec_errors_none() {
    assert!(Error::LZMAError("bad stream".to_string()).source().is_none());
    assert!(Error::XZError("bad stream".to_string()).source().is_none());
    assert!(Error::LZMAError(String::new()).source().is_none());
    assert!(Error::XZError(String::new()).source().is_none());
}

#[test]
fn test_from_io_error_round_trip() {
    let raw = std::io::Error::new(std::io::ErrorKind::Other, "this is an error");
    let original_text = raw.to_string();
    let e = Error::from(raw);
    assert!(matches!(e, Error::IOError(_)));
    let cause = e.source().expect("conversion keeps the failure as the cause");
    assert_eq!(cause.to_string(), original_text);
}

fn propagate(r: std::result::Result<u8, std::io::Error>) -> lzma_rs::error::Result<u8> {
    let v = r?;
    Ok(v)
}

#[test]
fn test_implicit_conversion_through_question_mark() {
    let out = propagate(Err(std::io::Error::new(std::io::ErrorKind::Other, "boom")));
    match out {
        Err(Error::IOError(inner)) => assert_eq!(inner.to_string(), "boom"),
        _ => panic!("expected an IOError"),
    }
    assert_eq!(propagate(Ok(7)).unwrap(), 7);
}

#[test]
fn test_display_and_source_idempotent() {
    let e = Error::HeaderTooShort(std::io::Error::new(
        std::io::ErrorKind::UnexpectedEof,
        "eof",
    ));
    assert_eq!(e.to_display_string(), e.to_display_string());
    assert_eq!(
        e.source().unwrap().to_string(),
        e.source().unwrap().to_string()
    );
    let c = Error::XZError("x".to_string());
    assert_eq!(c.to_display_string(), c.to_display_string());
    assert!(c.source().is_none());
    assert!(c.source().is_none());
}

#[test]
fn test_empty_codec_message() {
    assert_eq!(
        Error::LZMAError(String::new()).to_display_string(),
        "lzma error: "
    );
    assert_eq!(
        Error::XZError(String::new()).to_display_string(),
        "xz error: "
    );
}
