use serial_bridge::line::{input_step, quit_line_bytes, LineAction};

#[test]
fn quit_line_ends_the_session() {
    let r = input_step(b"/quit\n".to_vec());
    assert!(matches!(r, LineAction::Quit));
}

#[test]
fn quit_lookalikes_are_payload() {
    let r = input_step(b"/quitter\n".to_vec());
    match r {
        LineAction::Forward(v) => assert_eq!(v, b"/quitter\n".to_vec()),
        LineAction::Quit => panic!("lookalike treated as quit"),
    }
    let r = input_step(b"quit\n".to_vec());
    assert!(matches!(r, LineAction::Forward(_)));
    let r = input_step(b"/quit".to_vec());
    assert!(matches!(r, LineAction::Forward(_)));
    let r = input_step(b"/quit\n\n".to_vec());
    assert!(matches!(r, LineAction::Forward(_)));
}

#[test]
fn payload_is_forwarded_verbatim() {
    let cases: Vec<Vec<u8>> = vec![
        b"hello device\n".to_vec(),
        b"\n".to_vec(),
        Vec::new(),
        vec![0x00, 0xFF, 0x7F, 0x0A],
    ];
    for line in cases {
        match input_step(line.clone()) {
            LineAction::Forward(v) => assert_eq!(v, line),
            LineAction::Quit => panic!("payload treated as quit"),
        }
    }
}

#[test]
fn quit_sentinel_bytes_are_exact() {
    assert_eq!(quit_line_bytes(), b"/quit\n".to_vec());
}
