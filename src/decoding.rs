//! What each end of the conversation parses from the wire.
use bytes::BytesMut;
use vstd::prelude::*;

use crate::actions::{Abort, Continue, Discard, Quit, QuitNc, Reject, Replycode, Skip, Tempfail};
use crate::buffer::{buf_from_slice, buf_get_u8, buf_len, bytes_of};
use crate::commands::{
    Body, Connect, Data, EndOfBody, EndOfHeader, Header, Helo, Macro, Mail, Recipient, Unknown,
};
use crate::error::{invalid, not_enough, not_enough_with, ProtocolError};
use crate::message::{
    parse_client, parse_server, MessageView, CODE_ABORT, CODE_ADD_HEADER, CODE_ADD_RECIPIENT,
    CODE_BODY, CODE_CHANGE_HEADER, CODE_CONNECT, CODE_CONTINUE, CODE_DATA, CODE_DELETE_RECIPIENT,
    CODE_DISCARD, CODE_END_OF_BODY, CODE_END_OF_HEADER, CODE_HEADER, CODE_HELO,
    CODE_INSERT_HEADER, CODE_MACRO, CODE_MAIL, CODE_OPTNEG, CODE_QUARANTINE, CODE_QUIT,
    CODE_QUIT_NC, CODE_RECIPIENT, CODE_REJECT, CODE_REPLACE_BODY, CODE_REPLYCODE, CODE_SKIP,
    CODE_TEMPFAIL, CODE_UNKNOWN,
};
use crate::modifications::{
    AddHeader, AddRecipient, ChangeHeader, DeleteRecipient, InsertHeader, Quarantine, ReplaceBody,
};
use crate::optneg::OptNeg;

verus! {

/// `s` is a message of code `code` whose payload is too short for the
/// four-byte header index.
pub open spec fn short_index_payload(s: Seq<u8>, code: u8) -> bool {
    1 <= s.len() < 5 && s[0] == code
}

/// A message sent by the MTA, as the filter parses it.
#[derive(Debug)]
pub enum ClientCommand {
    Abort(Abort),
    OptNeg(OptNeg),
    Quit(Quit),
    QuitNc(QuitNc),
    Macro(Macro),
    Unknown(Unknown),
    Connect(Connect),
    Helo(Helo),
    Mail(Mail),
    Recipient(Recipient),
    Header(Header),
    EndOfHeader(EndOfHeader),
    Data(Data),
    Body(Body),
    EndOfBody(EndOfBody),
}

impl ClientCommand {
    pub open spec fn view(&self) -> MessageView {
        match self {
            ClientCommand::Abort(m) => m.view(),
            ClientCommand::OptNeg(m) => m.view(),
            ClientCommand::Quit(m) => m.view(),
            ClientCommand::QuitNc(m) => m.view(),
            ClientCommand::Macro(m) => m.view(),
            ClientCommand::Unknown(m) => m.view(),
            ClientCommand::Connect(m) => m.view(),
            ClientCommand::Helo(m) => m.view(),
            ClientCommand::Mail(m) => m.view(),
            ClientCommand::Recipient(m) => m.view(),
            ClientCommand::Header(m) => m.view(),
            ClientCommand::EndOfHeader(m) => m.view(),
            ClientCommand::Data(m) => m.view(),
            ClientCommand::Body(m) => m.view(),
            ClientCommand::EndOfBody(m) => m.view(),
        }
    }

    /// Reads the code byte and then the payload of the message it names.
    pub fn parse(mut buffer: BytesMut) -> (r: Result<Self, ProtocolError>)
        ensures
            parse_client(bytes_of(buffer)) == match r {
                Ok(m) => Ok(m.view()),
                Err(e) => Err(e.kind()),
            },
    {
        if buf_len(&buffer) == 0 {
            return Err(
                not_enough("Command", "code missing to detect which command it is", 1, 0, buffer),
            );
        }
        let code = buf_get_u8(&mut buffer);
        if code == CODE_ABORT {
            Ok(ClientCommand::Abort(Abort::parse(buffer)?))
        } else if code == CODE_OPTNEG {
            Ok(ClientCommand::OptNeg(OptNeg::parse(buffer)?))
        } else if code == CODE_QUIT {
            Ok(ClientCommand::Quit(Quit::parse(buffer)?))
        } else if code == CODE_QUIT_NC {
            Ok(ClientCommand::QuitNc(QuitNc::parse(buffer)?))
        } else if code == CODE_MACRO {
            Ok(ClientCommand::Macro(Macro::parse(buffer)?))
        } else if code == CODE_UNKNOWN {
            Ok(ClientCommand::Unknown(Unknown::parse(buffer)?))
        } else if code == CODE_CONNECT {
            Ok(ClientCommand::Connect(Connect::parse(buffer)?))
        } else if code == CODE_HELO {
            Ok(ClientCommand::Helo(Helo::parse(buffer)?))
        } else if code == CODE_MAIL {
            Ok(ClientCommand::Mail(Mail::parse(buffer)?))
        } else if code == CODE_RECIPIENT {
            Ok(ClientCommand::Recipient(Recipient::parse(buffer)?))
        } else if code == CODE_HEADER {
            Ok(ClientCommand::Header(Header::parse(buffer)?))
        } else if code == CODE_END_OF_HEADER {
            Ok(ClientCommand::EndOfHeader(EndOfHeader::parse(buffer)?))
        } else if code == CODE_DATA {
            Ok(ClientCommand::Data(Data::parse(buffer)?))
        } else if code == CODE_BODY {
            Ok(ClientCommand::Body(Body::parse(buffer)?))
        } else if code == CODE_END_OF_BODY {
            Ok(ClientCommand::EndOfBody(EndOfBody::parse(buffer)?))
        } else {
            Err(invalid("Unknown command sent with code", buf_from_slice(&[code])))
        }
    }
}

/// A message sent by the filter, as the MTA parses it.
#[derive(Debug)]
pub enum ServerCommand {
    OptNeg(OptNeg),
    Abort(Abort),
    Continue(Continue),
    Discard(Discard),
    Reject(Reject),
    Tempfail(Tempfail),
    Skip(Skip),
    Replycode(Replycode),
    AddRecipient(AddRecipient),
    DeleteRecipient(DeleteRecipient),
    ReplaceBody(ReplaceBody),
    AddHeader(AddHeader),
    InsertHeader(InsertHeader),
    ChangeHeader(ChangeHeader),
    Quarantine(Quarantine),
}

impl ServerCommand {
    pub open spec fn view(&self) -> MessageView {
        match self {
            ServerCommand::OptNeg(m) => m.view(),
            ServerCommand::Abort(m) => m.view(),
            ServerCommand::Continue(m) => m.view(),
            ServerCommand::Discard(m) => m.view(),
            ServerCommand::Reject(m) => m.view(),
            ServerCommand::Tempfail(m) => m.view(),
            ServerCommand::Skip(m) => m.view(),
            ServerCommand::Replycode(m) => m.view(),
            ServerCommand::AddRecipient(m) => m.view(),
            ServerCommand::DeleteRecipient(m) => m.view(),
            ServerCommand::ReplaceBody(m) => m.view(),
            ServerCommand::AddHeader(m) => m.view(),
            ServerCommand::InsertHeader(m) => m.view(),
            ServerCommand::ChangeHeader(m) => m.view(),
            ServerCommand::Quarantine(m) => m.view(),
        }
    }

    /// Reads the code byte and then the payload of the message it names.
    pub fn parse(mut buffer: BytesMut) -> (r: Result<Self, ProtocolError>)
        ensures
            parse_server(bytes_of(buffer)) == match r {
                Ok(m) => Ok(m.view()),
                Err(e) => Err(e.kind()),
            },
            short_index_payload(bytes_of(buffer), CODE_CHANGE_HEADER) ==> r is Err
                && not_enough_with(r->Err_0, "ChangeHeader", 4, (bytes_of(buffer).len() - 1) as usize),
            short_index_payload(bytes_of(buffer), CODE_INSERT_HEADER) ==> r is Err
                && not_enough_with(r->Err_0, "InsertHeader", 4, (bytes_of(buffer).len() - 1) as usize),
    {
        if buf_len(&buffer) == 0 {
            return Err(
                not_enough("Command", "code missing to detect which command it is", 1, 0, buffer),
            );
        }
        let code = buf_get_u8(&mut buffer);
        if code == CODE_OPTNEG {
            Ok(ServerCommand::OptNeg(OptNeg::parse(buffer)?))
        } else if code == CODE_ABORT {
            Ok(ServerCommand::Abort(Abort::parse(buffer)?))
        } else if code == CODE_CONTINUE {
            Ok(ServerCommand::Continue(Continue::parse(buffer)?))
        } else if code == CODE_DISCARD {
            Ok(ServerCommand::Discard(Discard::parse(buffer)?))
        } else if code == CODE_REJECT {
            Ok(ServerCommand::Reject(Reject::parse(buffer)?))
        } else if code == CODE_TEMPFAIL {
            Ok(ServerCommand::Tempfail(Tempfail::parse(buffer)?))
        } else if code == CODE_SKIP {
            Ok(ServerCommand::Skip(Skip::parse(buffer)?))
        } else if code == CODE_REPLYCODE {
            Ok(ServerCommand::Replycode(Replycode::parse(buffer)?))
        } else if code == CODE_ADD_RECIPIENT {
            Ok(ServerCommand::AddRecipient(AddRecipient::parse(buffer)?))
        } else if code == CODE_DELETE_RECIPIENT {
            Ok(ServerCommand::DeleteRecipient(DeleteRecipient::parse(buffer)?))
        } else if code == CODE_REPLACE_BODY {
            Ok(ServerCommand::ReplaceBody(ReplaceBody::parse(buffer)?))
        } else if code == CODE_ADD_HEADER {
            Ok(ServerCommand::AddHeader(AddHeader::parse(buffer)?))
        } else if code == CODE_INSERT_HEADER {
            match InsertHeader::parse(buffer) {
                Ok(m) => Ok(ServerCommand::InsertHeader(m)),
                Err(e) => Err(e),
            }
        } else if code == CODE_CHANGE_HEADER {
            match ChangeHeader::parse(buffer) {
                Ok(m) => Ok(ServerCommand::ChangeHeader(m)),
                Err(e) => Err(e),
            }
        } else if code == CODE_QUARANTINE {
            Ok(ServerCommand::Quarantine(Quarantine::parse(buffer)?))
        } else {
            Err(invalid("Unknown command sent with code", buf_from_slice(&[code])))
        }
    }
}

} // verus!
