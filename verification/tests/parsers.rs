use fteepee::error::Error;
use fteepee::parsers::{parse_features, parse_passive_mode, Features};

fn detail(feats: &Features, name: &[u8]) -> Option<Option<Vec<u8>>> {
    feats.get(name).map(|d| d.clone())
}

#[test]
fn test_parse_features() {
    let buf = b"Extensions supported:\n EPRT\n IDLE\n MDTM\n SIZE\n MFMT\n REST STREAM\n MLST type*;size*;sizd*;modify*;UNIX.mode*;UNIX.uid*;UNIX.gid*;unique*;\n MLSD\n AUTH TLS\n PBSZ\n PROT\n UTF8\n TVFS\n ESTA\n PASV\n EPSV\n SPSV\r\nEnd.";

    let feats = parse_features(&buf[..]);

    let expected: Vec<(&[u8], Option<&[u8]>)> = vec![
        (b"MFMT", None),
        (b"EPSV", None),
        (b"PASV", None),
        (b"ESTA", None),
        (b"AUTH", Some(b"TLS")),
        (b"REST", Some(b"STREAM")),
        (b"MLSD", None),
        (b"IDLE", None),
        (b"TVFS", None),
        (b"SPSV", None),
        (b"EPRT", None),
        (b"PBSZ", None),
        (b"MDTM", None),
        (
            b"MLST",
            Some(b"type*;size*;sizd*;modify*;UNIX.mode*;UNIX.uid*;UNIX.gid*;unique*;"),
        ),
        (b"PROT", None),
        (b"UTF8", None),
        (b"SIZE", None),
    ];

    assert_eq!(feats.len(), expected.len());
    for (name, want) in &expected {
        assert_eq!(detail(&feats, name), Some(want.map(|d| d.to_vec())));
    }
    for i in 0..feats.len() {
        let entry = feats.entry_at(i);
        assert!(expected.iter().any(|(name, _)| name == &entry.0.as_slice()));
    }
}

#[test]
fn feature_decode() {
    let buf = b" EPSV\n AUTH TLS\n MLST type*;size*;";

    let feats = parse_features(&buf[..]);

    assert_eq!(feats.len(), 3);
    assert_eq!(detail(&feats, b"EPSV"), Some(None));
    assert_eq!(detail(&feats, b"AUTH"), Some(Some(b"TLS".to_vec())));
    assert_eq!(detail(&feats, b"MLST"), Some(Some(b"type*;size*;".to_vec())));
    assert_eq!(detail(&feats, b"UTF8"), None);
}

#[test]
fn feature_lines_must_be_indented() {
    let feats = parse_features(&b"EPSV\nAUTH TLS"[..]);
    assert_eq!(feats.len(), 0);
    assert!(!feats.contains(b"EPSV"));
}

#[test]
fn repeated_feature_keeps_later_detail() {
    let feats = parse_features(&b" AUTH SSL\n AUTH TLS"[..]);
    assert_eq!(detail(&feats, b"AUTH"), Some(Some(b"TLS".to_vec())));
}

#[test]
fn passive_mode_decode() {
    let addr = parse_passive_mode(b"Entering Passive Mode (127,0,0,1,117,49).\r\n").unwrap();
    assert_eq!(addr, ([127, 0, 0, 1], 117 * 256 + 49));
    assert_eq!(addr.1, 30001);
}

#[test]
fn passive_mode_malformed_inputs() {
    assert_eq!(
        parse_passive_mode(b"Entering Passive Mode 127,0,0,1,117,49"),
        Err(Error::InvalidPassiveModeReply)
    );
    assert_eq!(
        parse_passive_mode(b"(1,2,3)"),
        Err(Error::InvalidPassiveModeReply)
    );
    assert_eq!(
        parse_passive_mode(b"(256,0,0,1,117,49)"),
        Err(Error::InvalidPassiveModeReply)
    );
    assert_eq!(
        parse_passive_mode(b"(127,0,0,1,300,49)"),
        Err(Error::InvalidPassiveModeReply)
    );
    assert_eq!(
        parse_passive_mode(b"(127,0,0,1,117,49"),
        Err(Error::InvalidPassiveModeReply)
    );
    assert_eq!(
        parse_passive_mode(b"(127,0,0,1,117,x)"),
        Err(Error::InvalidPassiveModeReply)
    );
}

#[test]
fn passive_mode_boundary_values() {
    assert_eq!(
        parse_passive_mode(b"(0,0,0,0,0,0)").unwrap(),
        ([0, 0, 0, 0], 0)
    );
    assert_eq!(
        parse_passive_mode(b"(255,255,255,255,255,255)").unwrap(),
        ([255, 255, 255, 255], 255 * 256 + 255)
    );
}
