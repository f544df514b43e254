use fteepee::error::Error;
use fteepee::session::{Action, Session};

fn send_bytes(r: Result<Action, Error>) -> Vec<u8> {
    match r.unwrap() {
        Action::Send(v) => v,
        other => panic!("expected Send, got {}", action_name(&other)),
    }
}

fn action_name(a: &Action) -> &'static str {
    match a {
        Action::ReadLine => "ReadLine",
        Action::Send(_) => "Send",
        Action::SendThenOpenData(_, _, _) => "SendThenOpenData",
        Action::ReceiveData => "ReceiveData",
        Action::SendData => "SendData",
        Action::Done => "Done",
    }
}

/// Drives a fresh session through the greeting and a rejected FEAT.
fn connected_plain() -> Session {
    let mut s = Session::new();
    let feat = send_bytes(s.on_line(b"220 Service ready"));
    assert_eq!(feat, b"FEAT\r\n");
    assert!(matches!(s.on_line(b"500 What?"), Ok(Action::Done)));
    assert!(s.is_idle());
    assert!(!s.config().mlst_supported);
    s
}

/// Logs a connected session in with user/pass.
fn login(s: &mut Session, user: &str, pass: &str) {
    let user_cmd = match s.start_login(user, pass) {
        Action::Send(v) => v,
        other => panic!("expected Send, got {}", action_name(&other)),
    };
    assert_eq!(user_cmd, format!("USER {}\r\n", user).into_bytes());
    let pass_cmd = send_bytes(s.on_line(b"331 Password required"));
    assert_eq!(pass_cmd, format!("PASS {}\r\n", pass).into_bytes());
    assert!(matches!(s.on_line(b"230 Logged in."), Ok(Action::Done)));
    assert!(s.is_ready());
}

#[test]
fn end_to_end_login() {
    let mut s = connected_plain();
    login(&mut s, "user", "pass");
    assert!(s.is_ready());
    assert!(!s.config().mlst_supported);
}

#[test]
fn login_without_password_prompt_still_sends_pass() {
    let mut s = connected_plain();
    s.start_login("user", "pass");
    let pass_cmd = send_bytes(s.on_line(b"230 Welcome"));
    assert_eq!(pass_cmd, b"PASS pass\r\n");
    assert!(matches!(s.on_line(b"230 Logged in."), Ok(Action::Done)));
    assert!(s.is_ready());
}

#[test]
fn choreography_violation_fails_login() {
    let mut s = connected_plain();
    s.start_login("anonymous", "coward");
    send_bytes(s.on_line(b"331 Password required"));
    let r = s.on_line(b"530 Not logged in.");
    match r {
        Err(Error::UnexpectedCode(c)) => assert_eq!(c.value(), 530),
        other => panic!("expected UnexpectedCode, got {:?}", other.is_ok()),
    }
    assert!(s.is_failed());
    assert!(!s.is_ready());
}

#[test]
fn feat_reply_fixes_listing_command() {
    let mut s = Session::new();
    send_bytes(s.on_line(b"220 Ready"));
    assert!(matches!(s.on_line(b"211-Extensions:"), Ok(Action::ReadLine)));
    assert!(matches!(s.on_line(b" MLST type*;size*;"), Ok(Action::ReadLine)));
    assert!(matches!(s.on_line(b"211 End"), Ok(Action::Done)));
    assert!(s.is_idle());
    assert!(s.config().mlst_supported);
}

#[test]
fn list_choreography_extended() {
    let mut s = Session::new();
    send_bytes(s.on_line(b"220 Ready"));
    assert!(matches!(s.on_line(b"211-Extensions:"), Ok(Action::ReadLine)));
    assert!(matches!(s.on_line(b" MLST"), Ok(Action::ReadLine)));
    assert!(matches!(s.on_line(b"211 End"), Ok(Action::Done)));
    login(&mut s, "user", "pass");

    let pasv = match s.start_list("/pub") {
        Action::Send(v) => v,
        other => panic!("expected Send, got {}", action_name(&other)),
    };
    assert_eq!(pasv, b"PASV\r\n");

    match s.on_line(b"227 Entering Passive Mode (127,0,0,1,117,49).").unwrap() {
        Action::SendThenOpenData(cmd, host, port) => {
            assert_eq!(cmd, b"MLSD /pub\r\n");
            assert_eq!(host, [127, 0, 0, 1]);
            assert_eq!(port, 30001);
        }
        other => panic!("expected SendThenOpenData, got {}", action_name(&other)),
    }

    assert!(matches!(
        s.on_line(b"150 Opening data connection"),
        Ok(Action::ReceiveData)
    ));
    assert!(matches!(s.data_finished(), Action::ReadLine));
    assert!(matches!(
        s.on_line(b"226 Closing data connection"),
        Ok(Action::Done)
    ));
    assert!(s.is_ready());
}

#[test]
fn list_choreography_legacy() {
    let mut s = connected_plain();
    login(&mut s, "user", "pass");

    s.start_list("/pub");
    match s.on_line(b"227 Entering Passive Mode (10,0,0,2,4,1)").unwrap() {
        Action::SendThenOpenData(cmd, host, port) => {
            assert_eq!(cmd, b"LIST /pub\r\n");
            assert_eq!(host, [10, 0, 0, 2]);
            assert_eq!(port, 1025);
        }
        other => panic!("expected SendThenOpenData, got {}", action_name(&other)),
    }
    assert!(matches!(s.on_line(b"150 Here it comes"), Ok(Action::ReceiveData)));
    assert!(matches!(s.data_finished(), Action::ReadLine));
    assert!(matches!(s.on_line(b"250 Okay"), Ok(Action::Done)));
    assert!(s.is_ready());
}

#[test]
fn put_choreography() {
    let mut s = connected_plain();
    login(&mut s, "user", "pass");

    let ty = match s.start_put("file.bin") {
        Action::Send(v) => v,
        other => panic!("expected Send, got {}", action_name(&other)),
    };
    assert_eq!(ty, b"TYPE I\r\n");

    let pasv = send_bytes(s.on_line(b"200 Command okay"));
    assert_eq!(pasv, b"PASV\r\n");

    match s.on_line(b"227 Entering Passive Mode (127,0,0,1,117,49)").unwrap() {
        Action::SendThenOpenData(cmd, host, port) => {
            assert_eq!(cmd, b"STOR file.bin\r\n");
            assert_eq!(host, [127, 0, 0, 1]);
            assert_eq!(port, 30001);
        }
        other => panic!("expected SendThenOpenData, got {}", action_name(&other)),
    }

    assert!(matches!(
        s.on_line(b"125 Data connection already open"),
        Ok(Action::SendData)
    ));
    assert!(matches!(s.data_finished(), Action::ReadLine));
    assert!(matches!(s.on_line(b"226 Done"), Ok(Action::Done)));
    assert!(s.is_ready());
}

#[test]
fn malformed_passive_reply_fails_session() {
    let mut s = connected_plain();
    login(&mut s, "user", "pass");

    s.start_list("/");
    let r = s.on_line(b"227 Entering Passive Mode 127,0,0,1,117,49");
    assert!(matches!(r, Err(Error::InvalidPassiveModeReply)));
    assert!(s.is_failed());
}

#[test]
fn malformed_greeting_fails_session() {
    let mut s = Session::new();
    let r = s.on_line(b"hello");
    assert!(matches!(r, Err(Error::IncompleteResponse)));
    assert!(s.is_failed());
}

#[test]
fn unknown_code_fails_session() {
    let mut s = Session::new();
    let r = s.on_line(b"999 Who knows");
    assert!(matches!(r, Err(Error::InvalidCode(_))));
    assert!(s.is_failed());
}
