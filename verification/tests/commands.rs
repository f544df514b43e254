use fteepee::commands::{Command, Feat, List, Mlsd, Pass, Pasv, Stor, Syst, Type, User};

#[test]
fn enum_command() {
    let mut output: Vec<u8> = Vec::new();

    let cmd = Type::ASCII;

    cmd.encode(&mut output);

    assert_eq!(output.len(), cmd.size());
    assert_eq!(output[..cmd.size()], b"TYPE A\r\n"[..]);
}

#[test]
fn empty_struct_command() {
    let mut output: Vec<u8> = Vec::new();

    let cmd = Pasv::default();

    cmd.encode(&mut output);

    assert_eq!(output.len(), cmd.size());
    assert_eq!(output[..cmd.size()], b"PASV\r\n"[..]);
}

#[test]
fn one_field_struct_command() {
    let mut output: Vec<u8> = Vec::new();

    let cmd = User::new("foo");

    cmd.encode(&mut output);

    assert_eq!(output.len(), cmd.size());
    assert_eq!(output[..cmd.size()], b"USER foo\r\n"[..]);
}

fn encoded<C: Command>(cmd: &C) -> Vec<u8> {
    let mut output: Vec<u8> = Vec::new();
    cmd.encode(&mut output);
    assert_eq!(output.len(), cmd.size());
    output
}

#[test]
fn every_command_encodes_exactly() {
    assert_eq!(encoded(&User::new("alice")), b"USER alice\r\n");
    assert_eq!(encoded(&Pass::new("secret")), b"PASS secret\r\n");
    assert_eq!(encoded(&List::new("/pub")), b"LIST /pub\r\n");
    assert_eq!(encoded(&Mlsd::new("/pub")), b"MLSD /pub\r\n");
    assert_eq!(encoded(&Stor::new("file.bin")), b"STOR file.bin\r\n");
    assert_eq!(encoded(&Pasv), b"PASV\r\n");
    assert_eq!(encoded(&Syst::default()), b"SYST\r\n");
    assert_eq!(encoded(&Feat::default()), b"FEAT\r\n");
    assert_eq!(encoded(&Type::ASCII), b"TYPE A\r\n");
    assert_eq!(encoded(&Type::EBCDIC), b"TYPE E\r\n");
    assert_eq!(encoded(&Type::Image), b"TYPE I\r\n");
    assert_eq!(encoded(&Type::Local), b"TYPE L\r\n");
}

#[test]
fn empty_argument_still_spaced() {
    assert_eq!(encoded(&List::new("")), b"LIST \r\n");
}

#[test]
fn splitting_encoded_command_recovers_verb_and_arguments() {
    let bytes = encoded(&User::new("alice"));
    let line = &bytes[..bytes.len() - 2];
    assert_eq!(&bytes[bytes.len() - 2..], b"\r\n");
    let pieces: Vec<&[u8]> = line.split(|b| *b == b' ').collect();
    assert_eq!(pieces, vec![&b"USER"[..], &b"alice"[..]]);

    let bytes = encoded(&Syst::default());
    let line = &bytes[..bytes.len() - 2];
    let pieces: Vec<&[u8]> = line.split(|b| *b == b' ').collect();
    assert_eq!(pieces, vec![&b"SYST"[..]]);
}

#[test]
fn it_works() {
    let result = 2 + 2;
    assert_eq!(result, 4);
}
