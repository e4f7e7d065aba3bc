use serial_bridge::baud::{parse_baud_rate, BaudError, BaudRate};

#[test]
fn accepts_every_conventional_rate() {
    assert_eq!(parse_baud_rate(b"110"), Ok(BaudRate::Baud110));
    assert_eq!(parse_baud_rate(b"300"), Ok(BaudRate::Baud300));
    assert_eq!(parse_baud_rate(b"600"), Ok(BaudRate::Baud600));
    assert_eq!(parse_baud_rate(b"1200"), Ok(BaudRate::Baud1200));
    assert_eq!(parse_baud_rate(b"2400"), Ok(BaudRate::Baud2400));
    assert_eq!(parse_baud_rate(b"4800"), Ok(BaudRate::Baud4800));
    assert_eq!(parse_baud_rate(b"9600"), Ok(BaudRate::Baud9600));
    assert_eq!(parse_baud_rate(b"19200"), Ok(BaudRate::Baud19200));
    assert_eq!(parse_baud_rate(b"38400"), Ok(BaudRate::Baud38400));
    assert_eq!(parse_baud_rate(b"57600"), Ok(BaudRate::Baud57600));
    assert_eq!(parse_baud_rate(b"115200"), Ok(BaudRate::Baud115200));
}

#[test]
fn rejects_unsupported_rate_string() {
    assert_eq!(parse_baud_rate(b"1337"), Err(BaudError::Unsupported));
}

#[test]
fn rejects_empty_and_near_miss_strings() {
    assert_eq!(parse_baud_rate(b""), Err(BaudError::Unsupported));
    assert_eq!(parse_baud_rate(b"09600"), Err(BaudError::Unsupported));
    assert_eq!(parse_baud_rate(b"9600 "), Err(BaudError::Unsupported));
    assert_eq!(parse_baud_rate(b"96000"), Err(BaudError::Unsupported));
    assert_eq!(parse_baud_rate(b"fast"), Err(BaudError::Unsupported));
}
