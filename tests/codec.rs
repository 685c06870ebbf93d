use bytes::BytesMut;
use miltr::actions::{Action, Continue, Replycode};
use miltr::codec::MilterCodec;
use miltr::commands::{
    Body, Command, Connect, Data, EndOfBody, EndOfHeader, Family, Header, Helo, Mail, Recipient,
    Unknown,
};
use miltr::decoding::{ClientCommand, ServerCommand};
use miltr::encoding::{ClientMessage, ServerMessage};
use miltr::error::ProtocolError;
use miltr::modifications::{
    AddHeader, AddRecipient, ChangeHeader, DeleteRecipient, InsertHeader, ModificationAction,
    ReplaceBody,
};

#[test]
fn test_fuzz_1() {
    let mut input = BytesMut::from_iter([0, 0, 0, 4, 109, 255, 255, 7]);
    let codec = MilterCodec::new(2_usize.pow(16));
    let _output = codec.decode_server(&mut input).expect_err("This is not enough data");
}

#[test]
fn truncated_change_header_fails_cleanly() {
    let mut input = BytesMut::from_iter([0, 0, 0, 4, 0x6D, 0xFF, 0xFF, 0x07, 0xAA]);
    let codec = MilterCodec::new(65536);
    let res = codec.decode_server(&mut input);
    match res {
        Err(ProtocolError::NotEnoughData(e)) => {
            assert_eq!(e.item, "ChangeHeader");
            assert_eq!(e.expected, 4);
            assert_eq!(e.got, 3);
        }
        other => panic!("unexpected {other:?}"),
    }
    // the frame was consumed, nothing past it
    assert_eq!(input, BytesMut::from_iter([0xAA]));
}

#[test]
fn test_decode_fuzz_1() {
    let input = vec![
        0, 0, 0, 0, 0, 0, 0, 0, 0, 1, 0, 0, 0, 1, b'f', b'f', 0, 0, 0, 0, 0, 0, 0, 0,
    ];
    let codec = MilterCodec::new(2_usize.pow(16));
    let mut buffer = BytesMut::from_iter(&input);
    let _res = codec.decode_client(&mut buffer);
}

#[test]
fn test_decode_fuzz_2() {
    let input = vec![0, 0, 0, 5, 67, 58, 255, 1, 0];
    let codec = MilterCodec::new(2_usize.pow(16));
    let mut buffer = BytesMut::from_iter(&input);
    let _res = codec.decode_client(&mut buffer);
}

#[test]
fn test_decode_fuzz_3() {
    let input = vec![
        0, 0, 0, 21, 67, 230, 186, 186, 186, 186, 42, 255, 255, 255, 255, 255, 255, 255, 255, 255,
        255, 186, 0, 52, 72, 255,
    ];
    let codec = MilterCodec::new(2_usize.pow(16));
    let mut buffer = BytesMut::from_iter(&input);
    let _res = codec.decode_client(&mut buffer);
}

#[test]
fn connect_frame_round_trip() {
    let wire: Vec<u8> = vec![
        0x00, 0x00, 0x00, 0x18, 0x43, 0x6C, 0x6F, 0x63, 0x61, 0x6C, 0x68, 0x6F, 0x73, 0x74,
        0x00, 0x34, 0x04, 0xD2, 0x31, 0x32, 0x37, 0x2E, 0x30, 0x2E, 0x30, 0x2E, 0x31, 0x00,
    ];
    let codec = MilterCodec::new(65536);
    let msg = ClientMessage::Command(Command::Connect(Connect::new(
        b"localhost",
        Family::Inet,
        Some(1234),
        b"127.0.0.1",
    )));
    let mut out = BytesMut::new();
    codec.encode_client(&msg, &mut out).expect("encodes");
    assert_eq!(out.to_vec(), wire);

    let mut input = BytesMut::from_iter(wire);
    match codec.decode_client(&mut input) {
        Ok(Some(ClientCommand::Connect(c))) => {
            assert_eq!(c.hostname(), b"localhost".to_vec());
            assert_eq!(c.family, Family::Inet);
            assert_eq!(c.port, Some(1234));
            assert_eq!(c.address(), b"127.0.0.1".to_vec());
        }
        other => panic!("unexpected {other:?}"),
    }
    assert!(input.is_empty());
}

#[test]
fn replycode_frame() {
    let codec = MilterCodec::new(65536);
    let mut input = BytesMut::from_iter([0u8, 0, 0, 19, b'y']);
    input.extend_from_slice(b"1.2.3\x004.5.6\0Hello\0");
    let reply = match codec.decode_server(&mut input) {
        Ok(Some(ServerCommand::Replycode(r))) => r,
        other => panic!("unexpected {other:?}"),
    };
    assert_eq!(reply.rcode().code(), [1, 2, 3]);
    let mut out = BytesMut::new();
    codec
        .encode_server(&ServerMessage::Action(Action::Replycode(reply)), &mut out)
        .unwrap();
    assert_eq!(&out[..4], &[0, 0, 0, 19]);
    assert_eq!(&out[5..], b"1.2.3\x004.5.6\0Hello\0");
    let fresh = Replycode::new([1, 2, 3], [4, 5, 6], b"Hello");
    assert_eq!(fresh.len(), 18);
}

#[test]
fn decoder_waits_for_whole_frame() {
    let codec = MilterCodec::new(65536);
    let mut input = BytesMut::from_iter([0u8, 0, 0]);
    assert!(matches!(codec.decode_client(&mut input), Ok(None)));
    assert_eq!(input.len(), 3);
    let mut input = BytesMut::from_iter([0u8, 0, 0, 6, b'H', b'a']);
    assert!(matches!(codec.decode_client(&mut input), Ok(None)));
    assert_eq!(input.len(), 6);
}

#[test]
fn decoder_refuses_long_frames_before_reading() {
    let codec = MilterCodec::new(16);
    let mut input = BytesMut::from_iter([0u8, 0, 0, 17, b'B']);
    assert!(matches!(
        codec.decode_client(&mut input),
        Err(ProtocolError::TooMuchData(17))
    ));
    assert_eq!(input.len(), 5);
}

#[test]
fn encoder_refuses_long_messages() {
    let codec = MilterCodec::new(8);
    let msg = ClientMessage::Command(Command::Helo(Helo::from_bytes(b"a long greeting")));
    let mut out = BytesMut::from("x");
    assert!(matches!(
        codec.encode_client(&msg, &mut out),
        Err(ProtocolError::TooMuchData(16))
    ));
    assert_eq!(out, BytesMut::from("x"));
}

#[test]
fn frames_follow_each_other() {
    let codec = MilterCodec::new(65536);
    let mut out = BytesMut::new();
    codec
        .encode_server(
            &ServerMessage::ModificationAction(ModificationAction::AddHeader(AddHeader::new(
                b"X", b"Y",
            ))),
            &mut out,
        )
        .unwrap();
    codec
        .encode_server(&ServerMessage::Action(Action::Continue(Continue)), &mut out)
        .unwrap();
    assert_eq!(out.to_vec(), b"\0\0\0\x05hX\0Y\0\0\0\0\x01c".to_vec());
    match codec.decode_server(&mut out) {
        Ok(Some(ServerCommand::AddHeader(h))) => {
            assert_eq!(h.name(), b"X".to_vec());
            assert_eq!(h.value(), b"Y".to_vec());
        }
        other => panic!("unexpected {other:?}"),
    }
    assert!(matches!(codec.decode_server(&mut out), Ok(Some(ServerCommand::Continue(_)))));
    assert!(out.is_empty());
}

#[test]
fn fuzz_parse_both_roles() {
    let mut input = BytesMut::from_iter([0u8, 0, 0, 1, b'T', 0, 0, 0, 1, b'c']);
    assert!(matches!(miltr::server::fuzz_parse(&mut input), Ok(Some(ClientCommand::Data(_)))));
    assert!(matches!(miltr::client::fuzz_parse(&mut input), Ok(Some(ServerCommand::Continue(_)))));
    assert!(input.is_empty());
}

fn client_round_trip(msg: ClientMessage) -> ClientCommand {
    let codec = MilterCodec::new(65536);
    let mut out = BytesMut::new();
    codec.encode_client(&msg, &mut out).expect("encodes");
    let len = u32::from_be_bytes([out[0], out[1], out[2], out[3]]) as usize;
    assert_eq!(len, msg.len() + 1);
    assert_eq!(out.len(), len + 4);
    let parsed = codec.decode_client(&mut out).expect("decodes").expect("whole frame");
    assert!(out.is_empty());
    parsed
}

fn server_round_trip(msg: ServerMessage) -> ServerCommand {
    let codec = MilterCodec::new(65536);
    let mut out = BytesMut::new();
    codec.encode_server(&msg, &mut out).expect("encodes");
    let len = u32::from_be_bytes([out[0], out[1], out[2], out[3]]) as usize;
    assert_eq!(len, msg.len() + 1);
    let parsed = codec.decode_server(&mut out).expect("decodes").expect("whole frame");
    assert!(out.is_empty());
    parsed
}

#[test]
fn round_trip_commands() {
    match client_round_trip(ClientMessage::Command(Command::Helo(Helo::from_bytes(b"mx.example")))) {
        ClientCommand::Helo(h) => assert_eq!(h.helo(), b"mx.example".to_vec()),
        other => panic!("unexpected {other:?}"),
    }
    match client_round_trip(ClientMessage::Command(Command::Mail(Mail::from_bytes(b"<a@b>")))) {
        ClientCommand::Mail(m) => {
            assert_eq!(m.sender(), b"<a@b>".to_vec());
            assert!(m.esmtp_args().is_empty());
        }
        other => panic!("unexpected {other:?}"),
    }
    match client_round_trip(ClientMessage::Command(Command::Recipient(Recipient::from_bytes(
        b"<c@d>",
    )))) {
        ClientCommand::Recipient(r) => assert_eq!(r.recipient(), b"<c@d>".to_vec()),
        other => panic!("unexpected {other:?}"),
    }
    match client_round_trip(ClientMessage::Command(Command::Header(Header::new(b"Subject", b"hi")))) {
        ClientCommand::Header(h) => {
            assert_eq!(h.name(), b"Subject".to_vec());
            assert_eq!(h.value(), b"hi".to_vec());
        }
        other => panic!("unexpected {other:?}"),
    }
    match client_round_trip(ClientMessage::Command(Command::Body(Body::from_bytes(b"a\0b")))) {
        ClientCommand::Body(b) => assert_eq!(b.to_vec(), b"a\0b".to_vec()),
        other => panic!("unexpected {other:?}"),
    }
    match client_round_trip(ClientMessage::Command(Command::Unknown(Unknown::from_bytes(b"XYZZY")))) {
        ClientCommand::Unknown(u) => assert_eq!(u.as_bytes(), b"XYZZY".to_vec()),
        other => panic!("unexpected {other:?}"),
    }
    assert!(matches!(
        client_round_trip(ClientMessage::Command(Command::Data(Data))),
        ClientCommand::Data(_)
    ));
    assert!(matches!(
        client_round_trip(ClientMessage::Command(Command::EndOfHeader(EndOfHeader))),
        ClientCommand::EndOfHeader(_)
    ));
    assert!(matches!(
        client_round_trip(ClientMessage::Command(Command::EndOfBody(EndOfBody))),
        ClientCommand::EndOfBody(_)
    ));
    assert!(matches!(
        client_round_trip(ClientMessage::Action(Action::Quit(miltr::actions::Quit))),
        ClientCommand::Quit(_)
    ));
    let mut opts = miltr::optneg::OptNeg::default();
    opts.macro_stages.with_stage(miltr::optneg::MacroStage::Connect, &["j", "{daemon_name}"]);
    match client_round_trip(ClientMessage::Optneg(opts)) {
        ClientCommand::OptNeg(o) => {
            assert_eq!(o.version, 6);
            assert_eq!(o.capabilities.bits(), 0xff);
            assert_eq!(
                o.macro_stages.stage(miltr::optneg::MacroStage::Connect),
                vec![b"j".to_vec(), b"{daemon_name}".to_vec()]
            );
        }
        other => panic!("unexpected {other:?}"),
    }
}

#[test]
fn round_trip_filter_messages() {
    match server_round_trip(ServerMessage::ModificationAction(ModificationAction::ChangeHeader(
        ChangeHeader::new(2, b"Subject", b""),
    ))) {
        ServerCommand::ChangeHeader(c) => {
            assert_eq!(c.index(), 2);
            assert_eq!(c.name(), b"Subject".to_vec());
            assert!(c.value().is_empty());
        }
        other => panic!("unexpected {other:?}"),
    }
    match server_round_trip(ServerMessage::ModificationAction(ModificationAction::InsertHeader(
        InsertHeader::new(0, b"X-A", b"1"),
    ))) {
        ServerCommand::InsertHeader(c) => assert_eq!(c.index(), 0),
        other => panic!("unexpected {other:?}"),
    }
    match server_round_trip(ServerMessage::ModificationAction(ModificationAction::AddRecipient(
        AddRecipient::new(b"<x@y>"),
    ))) {
        ServerCommand::AddRecipient(r) => assert_eq!(r.recipient(), b"<x@y>".to_vec()),
        other => panic!("unexpected {other:?}"),
    }
    match server_round_trip(ServerMessage::ModificationAction(ModificationAction::DeleteRecipient(
        DeleteRecipient::new(b"<x@y>"),
    ))) {
        ServerCommand::DeleteRecipient(r) => assert_eq!(r.recipient(), b"<x@y>".to_vec()),
        other => panic!("unexpected {other:?}"),
    }
    match server_round_trip(ServerMessage::ModificationAction(ModificationAction::ReplaceBody(
        ReplaceBody::new(b"new body"),
    ))) {
        ServerCommand::ReplaceBody(r) => assert_eq!(r.body(), b"new body".to_vec()),
        other => panic!("unexpected {other:?}"),
    }
    match server_round_trip(ServerMessage::Action(Action::Replycode(Replycode::new(
        [550, 5, 7],
        [5, 7, 1],
        b"denied",
    )))) {
        ServerCommand::Replycode(r) => {
            assert_eq!(r.rcode().code(), [550, 5, 7]);
            assert_eq!(r.xcode().code(), [5, 7, 1]);
            assert_eq!(r.message(), b"denied".to_vec());
        }
        other => panic!("unexpected {other:?}"),
    }
    assert!(matches!(
        server_round_trip(ServerMessage::Action(Action::Skip(miltr::actions::Skip))),
        ServerCommand::Skip(_)
    ));
    // a quarantine reason comes back with its terminating NUL
    match server_round_trip(ServerMessage::ModificationAction(ModificationAction::Quarantine(
        miltr::modifications::Quarantine::new(b"spam"),
    ))) {
        ServerCommand::Quarantine(q) => assert_eq!(q.reason(), b"spam\0".to_vec()),
        other => panic!("unexpected {other:?}"),
    }
}
