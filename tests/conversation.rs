use bytes::BytesMut;
use miltr::actions::{Abort, Action, Continue, Reject};
use miltr::client::{command_type, Client, Connection, EndOfBodyProgress, Next, ResponseError};
use miltr::codec::MilterCodec;
use miltr::commands::{Command, Helo, Mail};
use miltr::decoding::{ClientCommand, ServerCommand};
use miltr::encoding::ServerMessage;
use miltr::modifications::{
    AddHeader, ModificationAction, ModificationResponse, Quarantine, ReplaceBody,
};
use miltr::optneg::{Capability, MacroStages, OptNeg, Protocol};
use miltr::server::{handling, AbortOutcome, Handling, Session};

fn opts(caps: u32, proto: u32) -> OptNeg {
    OptNeg {
        version: 6,
        capabilities: Capability::from_bits_retain(caps),
        protocol: Protocol::from_bits_retain(proto),
        macro_stages: MacroStages::new(),
    }
}

fn connection(proto: u32) -> Connection {
    Connection::with_options(opts(0xff, proto), MilterCodec::new(65536))
}

#[test]
fn nr_helo_sends_without_reading() {
    let conn = connection(Protocol::NR_HELO);
    let mut out = BytesMut::new();
    let next = conn
        .send_command(Command::Helo(Helo::from_bytes(b"x")), &mut out)
        .unwrap();
    assert_eq!(next, Next::Done);
    assert_eq!(out.to_vec(), vec![0, 0, 0, 3, 0x48, 0x78, 0]);
    // the next command awaits its Continue
    let mut out = BytesMut::new();
    let next = conn
        .send_command(Command::Mail(Mail::from_bytes(b"a@b")), &mut out)
        .unwrap();
    assert_eq!(next, Next::AwaitContinue);
    assert!(conn.expect_continue(ServerCommand::Continue(Continue)).is_ok());
    assert!(conn.expect_continue(ServerCommand::Reject(Reject)).is_err());
}

#[test]
fn no_helo_sends_nothing() {
    let conn = connection(Protocol::NO_HELO);
    let mut out = BytesMut::new();
    let next = conn
        .send_command(Command::Helo(Helo::from_bytes(b"x")), &mut out)
        .unwrap();
    assert_eq!(next, Next::Done);
    assert!(out.is_empty());
}

#[test]
fn end_of_body_is_never_skipped() {
    let conn = connection(0x1fffff);
    let mut out = BytesMut::new();
    conn.end_of_body(&mut out).unwrap();
    assert_eq!(out.to_vec(), vec![0, 0, 0, 1, b'E']);
}

#[test]
fn client_negotiation() {
    let client = Client::new(opts(Capability::SMFIF_ADDHDRS | Capability::SMFIF_CHGBODY, Protocol::NO_HELO));
    let mut out = BytesMut::new();
    client.start_negotiation(&mut out).unwrap();
    assert_eq!(out[4], b'O');
    let peer = OptNeg {
        version: 6,
        capabilities: Capability::from_bits_retain(Capability::SMFIF_ADDHDRS | Capability::SMFIF_ADDRCPT),
        protocol: Protocol::from_bits_retain(Protocol::NO_HELO | Protocol::NR_HELO),
        macro_stages: MacroStages::new(),
    };
    let conn = client.finish_negotiation(ServerCommand::OptNeg(peer)).unwrap();
    assert_eq!(conn.negotiated().capabilities.bits(), Capability::SMFIF_ADDHDRS);
    assert_eq!(conn.negotiated().protocol.bits(), Protocol::NO_HELO);
    assert!(client.finish_negotiation(ServerCommand::Continue(Continue)).is_err());
}

#[test]
fn end_of_body_answers_are_gathered() {
    let conn = connection(0);
    let builder = ModificationResponse::builder();
    let step = conn
        .end_of_body_answer(builder, ServerCommand::AddHeader(AddHeader::new(b"X", b"Y")))
        .unwrap();
    let builder = match step {
        EndOfBodyProgress::Collecting(b) => b,
        _ => panic!("a modification does not end the answer"),
    };
    let step = conn
        .end_of_body_answer(builder, ServerCommand::Continue(Continue))
        .unwrap();
    match step {
        EndOfBodyProgress::Finished(resp) => {
            assert_eq!(resp.modifications().len(), 1);
            assert!(matches!(resp.final_action(), Action::Continue(_)));
        }
        _ => panic!("an action ends the answer"),
    }
}

#[test]
fn capability_filtered_burst() {
    let mut session = Session::default_postfix();
    session.record_options(&opts(Capability::SMFIF_ADDHDRS, 0));
    let mut builder = ModificationResponse::builder();
    builder.push(ModificationAction::AddHeader(AddHeader::new(b"X", b"Y")));
    builder.push(ModificationAction::ReplaceBody(ReplaceBody::new(b"ABC")));
    builder.push(ModificationAction::Quarantine(Quarantine::new(b"no")));
    let messages = session.end_of_body_reply(builder.contin());
    assert_eq!(messages.len(), 2);
    let codec = MilterCodec::new(65536);
    let mut out = BytesMut::new();
    for m in &messages {
        codec.encode_server(m, &mut out).unwrap();
    }
    assert_eq!(out.to_vec(), b"\0\0\0\x05hX\0Y\0\0\0\0\x01c".to_vec());
}

#[test]
fn before_negotiation_everything_passes() {
    let session = Session::new(false);
    let mut builder = ModificationResponse::builder();
    builder.push(ModificationAction::Quarantine(Quarantine::new(b"no")));
    let messages = session.end_of_body_reply(builder.abort());
    assert_eq!(messages.len(), 2);
    assert!(matches!(messages[1], ServerMessage::Action(Action::Abort(_))));
}

#[test]
fn abort_as_quit() {
    let postfix = Session::default_postfix();
    assert!(matches!(postfix.abort_outcome(Action::Continue(Continue)), AbortOutcome::Quit));
    let plain = Session::new(false);
    assert!(matches!(
        plain.abort_outcome(Action::Abort(Abort)),
        AbortOutcome::Respond(ServerMessage::Action(Action::Abort(_)))
    ));
}

#[test]
fn empty_continue_response() {
    let r = ModificationResponse::empty_continue();
    assert!(r.modifications().is_empty());
    assert!(matches!(r.final_action(), Action::Continue(_)));
}

#[test]
fn filter_handling_of_commands() {
    let parse = |b: &[u8]| ClientCommand::parse(BytesMut::from(b)).unwrap();
    assert_eq!(handling(&parse(b"Hx\0")), Handling::Respond);
    assert_eq!(handling(&parse(b"T")), Handling::Respond);
    assert_eq!(handling(&parse(b"DC")), Handling::Silent);
    assert_eq!(handling(&parse(b"E")), Handling::EndOfBody);
    assert_eq!(handling(&parse(b"A")), Handling::Abort);
    assert_eq!(handling(&parse(b"Q")), Handling::Close);
    assert_eq!(handling(&parse(b"K")), Handling::NextMail);
}

#[test]
fn unexpected_carries_the_answer() {
    let conn = connection(0);
    match conn.expect_continue(ServerCommand::Reject(Reject)) {
        Err(ResponseError::Unexpected(ServerCommand::Reject(_))) => {}
        other => panic!("unexpected {other:?}"),
    }
    match command_type(ServerCommand::OptNeg(opts(0, 0))) {
        Err(ResponseError::Unexpected(ServerCommand::OptNeg(o))) => assert_eq!(o.version, 6),
        other => panic!("unexpected {:?}", other.is_ok()),
    }
}
