use bytes::BytesMut;
use miltr::actions::{Code, Quit, Replycode};
use miltr::commands::{Body, Connect, Family, Header, Helo, Macro, Mail, Recipient, Unknown};
use miltr::decoding::{ClientCommand, ServerCommand};
use miltr::error::ProtocolError;
use miltr::modifications::{
    AddHeader, AddRecipient, ChangeHeader, DeleteRecipient, InsertHeader, Quarantine, ReplaceBody,
};

fn connect_payload() -> BytesMut {
    let mut read_buffer = Vec::new();
    read_buffer.extend(b"localhost");
    read_buffer.push(0);
    read_buffer.push(b'4');
    read_buffer.extend(1234u16.to_be_bytes());
    read_buffer.extend(b"127.0.0.1");
    read_buffer.push(0);
    BytesMut::from_iter(read_buffer)
}

#[test]
fn test_parse_quit() {
    let buffer = BytesMut::from("this is quit buffer...");
    assert!(Quit::parse(buffer).is_err());
    assert!(Quit::parse(BytesMut::new()).is_ok());
}

#[test]
fn test_rcode_valid() {
    let input = BytesMut::from_iter(b"1.20.3");
    let code = Code::parse(input).expect("Failed parsing input");
    assert_eq!(code.code(), [1, 20, 3]);
    assert_eq!(6, code.len());
}

#[test]
fn test_rcode_invalid() {
    let input = BytesMut::from_iter(b"1.23");
    let _code = Code::parse(input).expect_err("Parsing did not error on invalid");
}

#[test]
fn rcode_rejects_overflow_and_signs() {
    assert!(Code::parse(BytesMut::from("1.2.65536")).is_err());
    assert!(Code::parse(BytesMut::from("1.2.-3")).is_err());
    assert!(Code::parse(BytesMut::from("1.2.")).is_err());
    assert!(Code::parse(BytesMut::from("1.2.3.4")).is_err());
    let c = Code::parse(BytesMut::from("+4.05.65535")).expect("valid code");
    assert_eq!(c.code(), [4, 5, 65535]);
}

#[test]
fn code_new_writes_dotted_decimal() {
    let c = Code::new([550, 5, 17]);
    assert_eq!(c.as_bytes(), b"550.5.17".to_vec());
    assert_eq!(c.len(), 8);
}

#[test]
fn test_parse_body() {
    let buffer = BytesMut::from("Random body...");
    let res = Body::parse(buffer);
    assert!(res.is_ok());
    assert_eq!(res.unwrap().to_vec(), b"Random body...".to_vec());
}

#[test]
fn test_create_connect() {
    let connect = Connect::parse(connect_payload()).expect("Failed parsing connect");
    assert_eq!(b"localhost".to_vec(), connect.hostname());
    assert_eq!(Family::Inet, connect.family);
    assert_eq!(Some(1234), connect.port);
    assert_eq!(b"127.0.0.1".to_vec(), connect.address());
}

#[test]
fn test_parse_connect() {
    let res = Connect::parse(connect_payload());
    assert!(res.is_ok());
}

#[test]
fn connect_unix_family_ignores_port() {
    let mut v = b"host\0L".to_vec();
    v.extend([0, 0]);
    v.extend(b"/run/sock\0");
    let c = Connect::parse(BytesMut::from_iter(v)).expect("unix connect");
    assert_eq!(c.family, Family::Unix);
    assert_eq!(c.port, None);
    assert_eq!(c.address(), b"/run/sock".to_vec());
}

#[test]
fn connect_errors() {
    assert!(matches!(
        Connect::parse(BytesMut::from("no nul")),
        Err(ProtocolError::InvalidData(_))
    ));
    assert!(matches!(
        Connect::parse(BytesMut::from("host\0")),
        Err(ProtocolError::NotEnoughData(_))
    ));
    assert!(matches!(
        Connect::parse(BytesMut::from("host\0X\0\0")),
        Err(ProtocolError::InvalidData(_))
    ));
    assert!(matches!(
        Connect::parse(BytesMut::from("host\x004\x01")),
        Err(ProtocolError::NotEnoughData(_))
    ));
}

#[test]
fn test_parse_header() {
    let buffer = BytesMut::from("name\0value\0");
    let res = Header::parse(buffer);
    assert!(res.is_ok());
    let h = res.unwrap();
    assert_eq!(h.name(), b"name".to_vec());
    assert_eq!(h.value(), b"value".to_vec());
}

#[test]
fn header_missing_nul() {
    assert!(matches!(
        Header::parse(BytesMut::from("name\0value")),
        Err(ProtocolError::InvalidData(_))
    ));
    assert!(matches!(
        Header::parse(BytesMut::from("namevalue")),
        Err(ProtocolError::InvalidData(_))
    ));
}

#[test]
fn test_parse_helo() {
    let res = Helo::parse(BytesMut::from("helo\0"));
    assert!(res.is_ok());
    assert_eq!(res.unwrap().helo(), b"helo".to_vec());
    let res = Helo::parse(BytesMut::new());
    assert!(res.is_err());
    assert!(Helo::parse(BytesMut::from(" ")).is_err());
}

#[test]
fn test_parse_mail() {
    let res = Mail::parse(BytesMut::from("sender\0arg1\0arg2"));
    assert!(res.is_ok());
    let m = res.unwrap();
    assert_eq!(m.sender(), b"sender".to_vec());
    assert_eq!(m.esmtp_args(), vec![b"arg1".to_vec(), b"arg2".to_vec()]);
    assert!(Mail::parse(BytesMut::from("senderarg1arg2")).is_err());
    assert!(Mail::parse(BytesMut::from("s\0")).unwrap().esmtp_args().is_empty());
}

#[test]
fn test_parse_mmacro() {
    let res = Macro::parse(BytesMut::from("Ckey\x00value\x00"));
    assert!(res.is_ok());
    let m = res.unwrap();
    assert_eq!(m.code, b'C');
    assert_eq!(m.macros(), vec![(b"key".to_vec(), b"value".to_vec())]);
}

#[test]
fn macro_pairs_and_errors() {
    let m = Macro::parse(BytesMut::from("O\0\0")).unwrap();
    assert_eq!(m.code, b'O');
    assert_eq!(m.macros(), vec![(Vec::new(), Vec::new())]);
    assert!(matches!(Macro::parse(BytesMut::new()), Err(ProtocolError::NotEnoughData(_))));
    assert!(matches!(
        Macro::parse(BytesMut::from("Ckey\0value\0odd\0")),
        Err(ProtocolError::NotEnoughData(_))
    ));
}

#[test]
fn test_parse_recipient() {
    let res = Recipient::parse(BytesMut::from("rcpt\0arg1\0arg2"));
    assert!(res.is_ok());
    let r = res.unwrap();
    assert_eq!(r.recipient(), b"rcpt".to_vec());
    assert_eq!(r.esmtp_args(), vec![b"arg1".to_vec(), b"arg2".to_vec()]);
    let r = Recipient::parse(BytesMut::from("recipient1 arg1 arg2"));
    assert!(r.is_err());
}

#[test]
fn test_parse_unknown() {
    let buffer = BytesMut::from_iter([255, 0, 0, 0]);
    let res = Unknown::parse(buffer);
    assert_eq!(res.unwrap().as_bytes(), vec![255]);
    assert!(Unknown::parse(BytesMut::from_iter([1, 2])).is_err());
}

#[test]
fn test_create_abort() {
    let command =
        ClientCommand::parse(BytesMut::from_iter(vec![b'A'])).expect("Failed parsing abort data");
    assert!(matches!(command, ClientCommand::Abort(_)));
}

#[test]
fn test_create_optneg() {
    let data = vec![b'O', 0, 0, 0, 6, 0, 0, 0, 0, 0, 0, 0, 0];
    let command =
        ClientCommand::parse(BytesMut::from_iter(data)).expect("Failed parsing optneg data");
    assert!(matches!(command, ClientCommand::OptNeg(o) if o.version == 6));
}

#[test]
fn unknown_codes_are_invalid() {
    assert!(matches!(
        ClientCommand::parse(BytesMut::from("c")),
        Err(ProtocolError::InvalidData(_))
    ));
    assert!(matches!(
        ServerCommand::parse(BytesMut::from("Q")),
        Err(ProtocolError::InvalidData(_))
    ));
    assert!(matches!(
        ClientCommand::parse(BytesMut::new()),
        Err(ProtocolError::NotEnoughData(_))
    ));
}

#[test]
fn body_test_replace_body() {
    let mut buffer = BytesMut::from("b");
    let replace_body = ReplaceBody::new(b"new body");
    replace_body.write(&mut buffer);
    assert_eq!(buffer, BytesMut::from("bnew body"));
}

#[test]
fn headers_test_add_header() {
    let mut buffer = BytesMut::from("h");
    let add_header = AddHeader::new(b"name", b"value");
    add_header.write(&mut buffer);
    assert_eq!(buffer, BytesMut::from("hname\0value\0"));
}

#[test]
fn change_and_insert_header_wire() {
    let cases: [(u32, &str, &str, &str); 3] = [
        (1, "name", "value", "\0\0\0\x01name\0value\0"),
        (0, "name", "value", "\0\0\0\0name\0value\0"),
        (2, "name", "\0", "\0\0\0\x02name\0\0\0"),
    ];
    for (index, name, value, expected) in cases {
        let mut buffer = BytesMut::from("m");
        ChangeHeader::new(index, name.as_bytes(), value.as_bytes()).write(&mut buffer);
        assert_eq!(buffer, BytesMut::from(format!("m{expected}").as_str()));
        let mut buffer = BytesMut::from("i");
        InsertHeader::new(index, name.as_bytes(), value.as_bytes()).write(&mut buffer);
        assert_eq!(buffer, BytesMut::from(format!("i{expected}").as_str()));
    }
}

#[test]
fn change_header_parse() {
    let c = ChangeHeader::parse(BytesMut::from("\0\0\0\x03Subject\0new\0")).unwrap();
    assert_eq!(c.index(), 3);
    assert_eq!(c.name(), b"Subject".to_vec());
    assert_eq!(c.value(), b"new".to_vec());
    assert!(matches!(
        ChangeHeader::parse(BytesMut::from_iter([0xFF, 0xFF, 0x07])),
        Err(ProtocolError::NotEnoughData(_))
    ));
}

#[test]
fn quarantine_test_quarantine() {
    let mut buffer = BytesMut::from("");
    let quan = Quarantine::new(b"Invalid Input");
    quan.write(&mut buffer);
    assert_eq!(buffer, BytesMut::from("Invalid Input\0"));
}

#[test]
fn test_add_recipient() {
    let mut buffer = BytesMut::new();
    let add_rcpt = AddRecipient::new(b"alex@gmail");
    add_rcpt.write(&mut buffer);
    assert_eq!(buffer.len(), add_rcpt.len());
    assert_eq!(buffer, BytesMut::from("alex@gmail\0"));
}

#[test]
fn test_delete_recipient() {
    let mut buffer = BytesMut::new();
    let del_rcpt = DeleteRecipient::new(b"alex@gmail");
    del_rcpt.write(&mut buffer);
    assert_eq!(buffer.len(), del_rcpt.len());
    assert_eq!(buffer, BytesMut::from("alex@gmail\0"));
}

#[test]
fn replycode_parse_and_rewrite() {
    let payload = BytesMut::from("1.2.3\x004.5.6\0Hello\0");
    let reply = Replycode::parse(payload).expect("valid reply code");
    assert_eq!(reply.rcode().code(), [1, 2, 3]);
    assert_eq!(reply.xcode().code(), [4, 5, 6]);
    assert_eq!(reply.message(), b"Hello".to_vec());
    let mut out = BytesMut::new();
    reply.write(&mut out);
    assert_eq!(out, BytesMut::from("1.2.3\x004.5.6\0Hello\0"));
    assert_eq!(out.len(), 18);
    assert_eq!(reply.len(), 18);
}

#[test]
fn replycode_errors() {
    assert!(matches!(
        Replycode::parse(BytesMut::from("1.2.3")),
        Err(ProtocolError::NotEnoughData(_))
    ));
    assert!(matches!(
        Replycode::parse(BytesMut::from("1.2\x004.5.6\0m\0")),
        Err(ProtocolError::InvalidData(_))
    ));
    assert!(matches!(
        Replycode::parse(BytesMut::from("1.2.3\x004.5.6\0m")),
        Err(ProtocolError::NotEnoughData(_))
    ));
}
