use fteepee::code::Code;
use fteepee::error::Error;
use fteepee::response::{ParsedResponseState, Response, ResponseExt};

fn feed(resp: &mut Response, out: &mut Vec<u8>, line: &[u8]) -> ParsedResponseState {
    resp.read_bytes(line, out).unwrap()
}

#[test]
fn test_response_parse_passive_mode() {
    let mut resp = Response::new();

    let addr = ([127, 0, 0, 1], 30001);

    assert_eq!(
        resp.parse_passive_mode(b"Entering Passive Mode (127,0,0,1,117,49)")
            .unwrap(),
        addr
    );
}

#[test]
fn single_line_parse() {
    let mut resp = Response::new();
    let mut out: Vec<u8> = Vec::new();

    let state = feed(&mut resp, &mut out, b"230 Logged in.");

    assert!(matches!(state, ParsedResponseState::Complete));
    assert_eq!(resp.code().unwrap().value(), 230);
    assert_eq!(resp.message(&out), b"Logged in.");
}

#[test]
fn multi_line_parse() {
    let mut resp = Response::new();
    let mut out: Vec<u8> = Vec::new();

    assert!(matches!(
        feed(&mut resp, &mut out, b"211-Extensions:"),
        ParsedResponseState::Partial
    ));
    assert!(matches!(
        feed(&mut resp, &mut out, b" FEAT"),
        ParsedResponseState::Partial
    ));
    assert!(matches!(
        feed(&mut resp, &mut out, b" MLST"),
        ParsedResponseState::Partial
    ));
    assert!(matches!(
        feed(&mut resp, &mut out, b"211 End"),
        ParsedResponseState::Complete
    ));
    assert_eq!(resp.code().unwrap().value(), 211);
    assert_eq!(resp.message(&out), b"Extensions:\n FEAT\n MLST\nEnd");
}

#[test]
fn dashed_interior_lines_are_body_text() {
    let mut resp = Response::new();
    let mut out: Vec<u8> = Vec::new();

    assert!(matches!(
        feed(&mut resp, &mut out, b"211-A"),
        ParsedResponseState::Partial
    ));
    assert!(matches!(
        feed(&mut resp, &mut out, b"211-B"),
        ParsedResponseState::Partial
    ));
    assert!(matches!(
        feed(&mut resp, &mut out, b"211 C"),
        ParsedResponseState::Complete
    ));
    assert_eq!(resp.message(&out), b"A\nB\nC");
}

#[test]
fn trailing_crlf_is_stripped_again() {
    let mut resp = Response::new();
    let mut out: Vec<u8> = Vec::new();

    let state = feed(&mut resp, &mut out, b"230 Logged in.\r\n");

    assert!(matches!(state, ParsedResponseState::Complete));
    assert_eq!(resp.message(&out), b"Logged in.");
}

#[test]
fn unknown_code() {
    let mut resp = Response::new();
    let mut out: Vec<u8> = Vec::new();

    let state = feed(&mut resp, &mut out, b"999 No such code");

    assert!(matches!(state, ParsedResponseState::Complete));
    assert_eq!(resp.code(), Err(Error::InvalidCode([b'9', b'9', b'9'])));
}

#[test]
fn malformed_opening_line() {
    let mut resp = Response::new();
    let mut out: Vec<u8> = Vec::new();

    assert_eq!(
        resp.read_bytes(b"hello there", &mut out),
        Err(Error::IncompleteResponse)
    );
    assert_eq!(
        resp.read_bytes(b"23", &mut out),
        Err(Error::IncompleteResponse)
    );
    assert_eq!(
        resp.read_bytes(b"23x rest", &mut out),
        Err(Error::IncompleteResponse)
    );
    assert!(out.is_empty());
}

#[test]
fn complete_state_is_terminal() {
    let mut resp = Response::new();
    let mut out: Vec<u8> = Vec::new();

    assert!(matches!(
        feed(&mut resp, &mut out, b"230 Done"),
        ParsedResponseState::Complete
    ));
    let before = out.clone();

    assert!(matches!(
        feed(&mut resp, &mut out, b"500 Something else"),
        ParsedResponseState::Complete
    ));
    assert!(matches!(
        feed(&mut resp, &mut out, b"garbage"),
        ParsedResponseState::Complete
    ));

    assert_eq!(out, before);
    assert_eq!(resp.code().unwrap().value(), 230);
}

#[test]
fn code_roundtrip_through_table() {
    assert_eq!(Code::from_bytes([b'2', b'2', b'0']).unwrap().value(), 220);
    assert_eq!(Code::from_bytes([b'5', b'5', b'0']).unwrap().value(), 550);
    assert_eq!(
        Code::from_bytes([b'0', b'0', b'0']),
        Err(Error::InvalidCode([b'0', b'0', b'0']))
    );
    assert_eq!(
        Code::from_bytes([b'2', b'2', b' ']),
        Err(Error::InvalidCode([b'2', b'2', b' ']))
    );
}
