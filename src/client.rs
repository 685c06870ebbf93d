//! The MTA's side of a conversation: which frames to send for each command,
//! when to wait for an answer, and what the answers mean. The transport
//! hands frames in and out; these functions make every decision.
use bytes::BytesMut;
use vstd::prelude::*;

use crate::actions::Action;
use crate::buffer::bytes_of;
use crate::codec::{decode_spec, encode_spec, server_outcome, MilterCodec, DEFAULT_MAX_BUFFER_SIZE};
use crate::commands::Command;
use crate::decoding::ServerCommand;
use crate::encoding::ClientMessage;
use crate::error::{ErrorKind, ProtocolError};
use crate::message::{code_of, parse_server, payload_of};
use crate::modifications::{
    ModificationAction, ModificationResponse, ModificationResponseBuilder,
};
use crate::optneg::{skips_response, skips_send, CompatibilityError, OptNeg};

verus! {

/// An error for all problems the client can run into.
#[derive(Debug)]
pub enum ResponseError {
    /// Anything protocol related
    ProtocolError(ProtocolError),
    /// There should have been a response but the stream ended
    MissingServerResponse,
    /// There was a response but not the one the protocol calls for
    Unexpected(ServerCommand),
    /// The two ends cannot agree on the options
    CompatibilityError(CompatibilityError),
}

/// The kinds of answer the filter may give at the end of the body.
#[derive(Debug)]
pub enum CommandType {
    /// A control-flow action, which ends the answer
    Action(Action),
    /// A modification of the mail
    ModificationAction(ModificationAction),
}

/// Sorts an answer of the filter into an action or a modification; option
/// negotiation is no answer to a command.
pub fn command_type(value: ServerCommand) -> (r: Result<CommandType, ResponseError>)
    ensures
        value is OptNeg <==> r is Err,
        r is Err ==> r->Err_0 == ResponseError::Unexpected(value),
        r is Ok ==> match r->Ok_0 {
            CommandType::Action(a) => a.view() == value.view(),
            CommandType::ModificationAction(m) => m.view() == value.view(),
        },
{
    match value {
        ServerCommand::OptNeg(o) => Err(ResponseError::Unexpected(ServerCommand::OptNeg(o))),
        ServerCommand::Abort(v) => Ok(CommandType::Action(Action::Abort(v))),
        ServerCommand::Continue(v) => Ok(CommandType::Action(Action::Continue(v))),
        ServerCommand::Discard(v) => Ok(CommandType::Action(Action::Discard(v))),
        ServerCommand::Reject(v) => Ok(CommandType::Action(Action::Reject(v))),
        ServerCommand::Tempfail(v) => Ok(CommandType::Action(Action::Tempfail(v))),
        ServerCommand::Skip(v) => Ok(CommandType::Action(Action::Skip(v))),
        ServerCommand::Replycode(v) => Ok(CommandType::Action(Action::Replycode(v))),
        ServerCommand::AddRecipient(v) => Ok(
            CommandType::ModificationAction(ModificationAction::AddRecipient(v)),
        ),
        ServerCommand::DeleteRecipient(v) => Ok(
            CommandType::ModificationAction(ModificationAction::DeleteRecipient(v)),
        ),
        ServerCommand::ReplaceBody(v) => Ok(
            CommandType::ModificationAction(ModificationAction::ReplaceBody(v)),
        ),
        ServerCommand::AddHeader(v) => Ok(
            CommandType::ModificationAction(ModificationAction::AddHeader(v)),
        ),
        ServerCommand::InsertHeader(v) => Ok(
            CommandType::ModificationAction(ModificationAction::InsertHeader(v)),
        ),
        ServerCommand::ChangeHeader(v) => Ok(
            CommandType::ModificationAction(ModificationAction::ChangeHeader(v)),
        ),
        ServerCommand::Quarantine(v) => Ok(
            CommandType::ModificationAction(ModificationAction::Quarantine(v)),
        ),
    }
}

/// Decodes one frame sent by the filter from the front of `buffer`, under
/// the default bound.
pub fn fuzz_parse(buffer: &mut BytesMut) -> (r: Result<Option<ServerCommand>, ProtocolError>)
    ensures
        (server_outcome(r), bytes_of(*final(buffer))) == decode_spec(
            bytes_of(*old(buffer)),
            DEFAULT_MAX_BUFFER_SIZE,
            |s: Seq<u8>| parse_server(s),
        ),
{
    MilterCodec::new(DEFAULT_MAX_BUFFER_SIZE).decode_server(buffer)
}

/// What the transport does after a command was handed to the connection.
#[derive(Debug, PartialEq, Eq, Structural)]
pub enum Next {
    /// Send what is queued; nothing is to be read
    Done,
    /// Send what is queued, then read one answer and hand it to
    /// `Connection::expect_continue`
    AwaitContinue,
}

/// A milter client: the options it offers and the codec it frames with.
#[derive(Debug)]
pub struct Client {
    options: OptNeg,
    codec: MilterCodec,
}

impl Client {
    pub closed spec fn options(&self) -> OptNeg {
        self.options
    }

    pub closed spec fn codec(&self) -> MilterCodec {
        self.codec
    }

    /// A client offering `options`, framing under the default bound.
    pub fn new(options: OptNeg) -> (r: Self)
        ensures
            r.options() == options,
            r.codec().max_buffer_size == DEFAULT_MAX_BUFFER_SIZE,
    {
        Client { options, codec: MilterCodec::new(DEFAULT_MAX_BUFFER_SIZE) }
    }

    /// The options this client offers.
    pub fn offered(&self) -> (r: &OptNeg)
        ensures
            *r == self.options(),
    {
        &self.options
    }

    /// Queues this client's options, the first frame of every conversation.
    pub fn start_negotiation(&self, outbox: &mut BytesMut) -> (r: Result<(), ProtocolError>)
        requires
            self.options().wf(),
            bytes_of(*old(outbox)).len() + payload_of(self.options().view()).len() + 5
                <= isize::MAX,
        ensures
            match encode_spec(self.options().view(), self.codec().max_buffer_size) {
                Ok(frame) => r is Ok && bytes_of(*final(outbox)) == bytes_of(*old(outbox))
                    + frame,
                Err(e) => r is Err && r->Err_0.kind() == e && bytes_of(*final(outbox))
                    == bytes_of(*old(outbox)),
            },
    {
        let msg = ClientMessage::Optneg(self.options.duplicate());
        self.codec.encode_client(&msg, outbox)
    }

    /// Takes the filter's answer to the negotiation: it must be options, and
    /// of a version this client supports; the conversation then runs on what
    /// both allow.
    pub fn finish_negotiation(&self, answer: ServerCommand) -> (r: Result<Connection, ResponseError>)
        requires
            self.options().wf(),
        ensures
            !(answer is OptNeg) ==> r is Err && r->Err_0 == ResponseError::Unexpected(answer),
            answer is OptNeg ==> match r {
                Ok(c) => self.options().version >= answer->OptNeg_0.version && c.options().version
                    == self.options().version && c.options().capabilities@
                    == self.options().capabilities@ & answer->OptNeg_0.capabilities@
                    && c.options().protocol@ == self.options().protocol@
                    & answer->OptNeg_0.protocol@ && c.codec() == self.codec(),
                Err(e) => self.options().version < answer->OptNeg_0.version && e
                    == ResponseError::CompatibilityError(
                    CompatibilityError::UnsupportedVersion {
                        received: answer->OptNeg_0.version,
                        supported: self.options().version,
                    },
                ),
            },
    {
        match answer {
            ServerCommand::OptNeg(theirs) => {
                let ours = self.options.duplicate();
                match ours.merge_compatible(&theirs) {
                    Ok(options) => Ok(Connection { options, codec: self.codec }),
                    Err(e) => Err(ResponseError::CompatibilityError(e)),
                }
            },
            other => Err(ResponseError::Unexpected(other)),
        }
    }
}

/// A single milter conversation after negotiation.
#[derive(Debug)]
pub struct Connection {
    options: OptNeg,
    codec: MilterCodec,
}

/// Where the answer to the end of the body stands.
#[derive(Debug)]
pub enum EndOfBodyProgress {
    /// Modifications gathered so far; more answers follow
    Collecting(ModificationResponseBuilder),
    /// An action ended the answer
    Finished(ModificationResponse),
}

impl Connection {
    /// The negotiated options.
    pub closed spec fn options(&self) -> OptNeg {
        self.options
    }

    pub closed spec fn codec(&self) -> MilterCodec {
        self.codec
    }

    /// A connection running on already negotiated options.
    pub fn with_options(options: OptNeg, codec: MilterCodec) -> (r: Self)
        ensures
            r.options() == options,
            r.codec() == codec,
    {
        Connection { options, codec }
    }

    /// The negotiated options.
    pub fn negotiated(&self) -> (r: &OptNeg)
        ensures
            *r == self.options(),
    {
        &self.options
    }

    /// Hands a command to the connection. A command that the MTA leaves out
    /// queues nothing; any other is queued as one frame, and unless it gets
    /// no reply the transport must then read one answer.
    pub fn send_command(&self, command: Command, outbox: &mut BytesMut) -> (r: Result<
        Next,
        ProtocolError,
    >)
        requires
            bytes_of(*old(outbox)).len() + payload_of(command.view()).len() + 5 <= isize::MAX,
        ensures
            skips_send(self.options().protocol@, code_of(command.view())) ==> r == Ok::<
                Next,
                ProtocolError,
            >(Next::Done) && bytes_of(*final(outbox)) == bytes_of(*old(outbox)),
            !skips_send(self.options().protocol@, code_of(command.view())) ==> match encode_spec(
                command.view(),
                self.codec().max_buffer_size,
            ) {
                Ok(frame) => bytes_of(*final(outbox)) == bytes_of(*old(outbox)) + frame && r
                    == Ok::<Next, ProtocolError>(
                    if skips_response(self.options().protocol@, code_of(command.view())) {
                        Next::Done
                    } else {
                        Next::AwaitContinue
                    },
                ),
                Err(e) => r is Err && r->Err_0.kind() == e && bytes_of(*final(outbox)) == bytes_of(
                    *old(outbox),
                ),
            },
    {
        if self.options.protocol.should_skip_send(&command) {
            return Ok(Next::Done);
        }
        let skip_response = self.options.protocol.should_skip_response(&command);
        let msg = ClientMessage::Command(command);
        match self.codec.encode_client(&msg, outbox) {
            Ok(()) => {},
            Err(e) => {
                return Err(e);
            },
        }
        if skip_response {
            Ok(Next::Done)
        } else {
            Ok(Next::AwaitContinue)
        }
    }

    /// Checks the answer to a command: only `Continue` lets the session go on.
    pub fn expect_continue(&self, answer: ServerCommand) -> (r: Result<(), ResponseError>)
        ensures
            answer is Continue <==> r is Ok,
            r is Err ==> r->Err_0 == ResponseError::Unexpected(answer),
    {
        match answer {
            ServerCommand::Continue(_) => Ok(()),
            other => Err(ResponseError::Unexpected(other)),
        }
    }

    /// Queues the end of the body, which is always sent and always answered;
    /// the answers then go to `end_of_body_answer`, starting from
    /// `ModificationResponse::builder()`.
    pub fn end_of_body(&self, outbox: &mut BytesMut) -> (r: Result<(), ProtocolError>)
        requires
            bytes_of(*old(outbox)).len() + 5 <= isize::MAX,
        ensures
            match encode_spec(
                crate::message::MessageView::Empty { code: crate::message::CODE_END_OF_BODY },
                self.codec().max_buffer_size,
            ) {
                Ok(frame) => r is Ok && bytes_of(*final(outbox)) == bytes_of(*old(outbox))
                    + frame,
                Err(e) => r is Err && r->Err_0.kind() == e && bytes_of(*final(outbox))
                    == bytes_of(*old(outbox)),
            },
    {
        let msg = ClientMessage::Command(Command::EndOfBody(crate::commands::EndOfBody));
        self.codec.encode_client(&msg, outbox)
    }

    /// Takes one answer to the end of the body: a modification is gathered,
    /// an action ends the answer, anything else is unexpected.
    pub fn end_of_body_answer(
        &self,
        gathered: ModificationResponseBuilder,
        answer: ServerCommand,
    ) -> (r: Result<EndOfBodyProgress, ResponseError>)
        ensures
            answer is OptNeg <==> r is Err,
            r is Err ==> r->Err_0 == ResponseError::Unexpected(answer),
            r is Ok ==> match r->Ok_0 {
                EndOfBodyProgress::Collecting(b) => b.mods().len() == gathered.mods().len() + 1
                    && b.mods().drop_last() == gathered.mods() && b.mods().last().view()
                    == answer.view(),
                EndOfBodyProgress::Finished(resp) => resp.mods() == gathered.mods()
                    && resp.last_action().view() == answer.view(),
            },
    {
        let mut gathered = gathered;
        match command_type(answer) {
            Ok(CommandType::Action(action)) => Ok(
                EndOfBodyProgress::Finished(gathered.build(action)),
            ),
            Ok(CommandType::ModificationAction(m)) => {
                let ghost before = gathered.mods();
                gathered.push(m);
                assert(gathered.mods().drop_last() =~= before);
                Ok(EndOfBodyProgress::Collecting(gathered))
            },
            Err(e) => Err(e),
        }
    }

    /// Queues `Abort`: sent without waiting for an answer.
    pub fn abort(&self, outbox: &mut BytesMut) -> (r: Result<(), ProtocolError>)
        requires
            bytes_of(*old(outbox)).len() + 5 <= isize::MAX,
        ensures
            match encode_spec(
                crate::message::MessageView::Empty { code: crate::message::CODE_ABORT },
                self.codec().max_buffer_size,
            ) {
                Ok(frame) => r is Ok && bytes_of(*final(outbox)) == bytes_of(*old(outbox))
                    + frame,
                Err(e) => r is Err && r->Err_0.kind() == e && bytes_of(*final(outbox))
                    == bytes_of(*old(outbox)),
            },
    {
        let msg = ClientMessage::Action(Action::Abort(crate::actions::Abort));
        self.codec.encode_client(&msg, outbox)
    }

    /// Queues `Quit`: sent without waiting for an answer.
    pub fn quit(&self, outbox: &mut BytesMut) -> (r: Result<(), ProtocolError>)
        requires
            bytes_of(*old(outbox)).len() + 5 <= isize::MAX,
        ensures
            match encode_spec(
                crate::message::MessageView::Empty { code: crate::message::CODE_QUIT },
                self.codec().max_buffer_size,
            ) {
                Ok(frame) => r is Ok && bytes_of(*final(outbox)) == bytes_of(*old(outbox))
                    + frame,
                Err(e) => r is Err && r->Err_0.kind() == e && bytes_of(*final(outbox))
                    == bytes_of(*old(outbox)),
            },
    {
        let msg = ClientMessage::Action(Action::Quit(crate::actions::Quit));
        self.codec.encode_client(&msg, outbox)
    }

    /// Queues `QuitNc`: this mail is done and the connection stays for the
    /// next one; sent without waiting for an answer.
    pub fn quit_nc(&self, outbox: &mut BytesMut) -> (r: Result<(), ProtocolError>)
        requires
            bytes_of(*old(outbox)).len() + 5 <= isize::MAX,
        ensures
            match encode_spec(
                crate::message::MessageView::Empty { code: crate::message::CODE_QUIT_NC },
                self.codec().max_buffer_size,
            ) {
                Ok(frame) => r is Ok && bytes_of(*final(outbox)) == bytes_of(*old(outbox))
                    + frame,
                Err(e) => r is Err && r->Err_0.kind() == e && bytes_of(*final(outbox))
                    == bytes_of(*old(outbox)),
            },
    {
        let msg = ClientMessage::Action(Action::QuitNc(crate::actions::QuitNc));
        self.codec.encode_client(&msg, outbox)
    }
}

} // verus!
