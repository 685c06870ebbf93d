//! The filter's side of a conversation: the options it keeps, the answer it
//! sends to the end of the body, and what an abort means. The application's
//! callbacks and the transport stay outside; these functions decide.
use vstd::prelude::*;

use bytes::BytesMut;

use crate::actions::Action;
use crate::buffer::bytes_of;
use crate::codec::{client_outcome, decode_spec, MilterCodec, DEFAULT_MAX_BUFFER_SIZE};
use crate::decoding::ClientCommand;
use crate::message::{
    code_of, parse_client, CODE_ABORT, CODE_END_OF_BODY, CODE_MACRO, CODE_OPTNEG, CODE_QUIT,
    CODE_QUIT_NC,
};
use crate::encoding::ServerMessage;
use crate::error::ProtocolError;
use crate::modifications::{kept_by_caps, ModificationResponse};
use crate::optneg::{all_capability_bits, Capability, OptNeg};

verus! {

/// What the filter does after its abort callback returned an action.
#[derive(Debug)]
pub enum AbortOutcome {
    /// Treat the abort as a quit: run the quit callback and end the
    /// conversation without an answer
    Quit,
    /// Answer with this message and go on
    Respond(ServerMessage),
}

/// What the filter does with a command of the MTA once its callback ran.
#[derive(Debug, Clone, Copy, PartialEq, Eq, Structural)]
pub enum Handling {
    /// Send the action that the callback returned
    Respond,
    /// Send nothing (a macro)
    Silent,
    /// Send `Session::end_of_body_reply` of the returned response
    EndOfBody,
    /// Record the returned options and send them
    Negotiate,
    /// Go by `Session::abort_outcome`
    Abort,
    /// End the conversation without an answer
    Close,
    /// Send nothing and wait for the next mail on this connection
    NextMail,
}

/// The handling of a command of code `c`.
pub open spec fn handling_of(c: u8) -> Handling {
    if c == CODE_MACRO {
        Handling::Silent
    } else if c == CODE_END_OF_BODY {
        Handling::EndOfBody
    } else if c == CODE_OPTNEG {
        Handling::Negotiate
    } else if c == CODE_ABORT {
        Handling::Abort
    } else if c == CODE_QUIT {
        Handling::Close
    } else if c == CODE_QUIT_NC {
        Handling::NextMail
    } else {
        Handling::Respond
    }
}

/// How the filter handles `command`: the SMTP commands are answered with
/// their callback's action, a macro gets no answer, the end of the body gets
/// the filtered modifications, negotiation gets the options, abort goes by
/// the session's mode, quit ends the conversation and quit-nc keeps it.
pub fn handling(command: &ClientCommand) -> (r: Handling)
    ensures
        r == handling_of(code_of(command.view())),
{
    match command {
        ClientCommand::Macro(_) => Handling::Silent,
        ClientCommand::EndOfBody(_) => Handling::EndOfBody,
        ClientCommand::OptNeg(_) => Handling::Negotiate,
        ClientCommand::Abort(_) => Handling::Abort,
        ClientCommand::Quit(_) => Handling::Close,
        ClientCommand::QuitNc(_) => Handling::NextMail,
        _ => Handling::Respond,
    }
}

/// The state a filter keeps through one conversation.
#[derive(Debug)]
pub struct Session {
    options: Option<OptNeg>,
    quit_on_abort: bool,
}

/// The capabilities in force: those negotiated, or all before negotiation.
pub open spec fn effective_capabilities(options: Option<OptNeg>) -> u32 {
    match options {
        Some(o) => o.capabilities@,
        None => all_capability_bits(),
    }
}

impl Session {
    pub closed spec fn options(&self) -> Option<OptNeg> {
        self.options
    }

    pub closed spec fn quits_on_abort(&self) -> bool {
        self.quit_on_abort
    }

    /// A session before negotiation.
    pub fn new(quit_on_abort: bool) -> (r: Self)
        ensures
            r.options() is None,
            r.quits_on_abort() == quit_on_abort,
    {
        Session { options: None, quit_on_abort }
    }

    /// A session that treats abort as quit, as postfix expects.
    pub fn default_postfix() -> (r: Self)
        ensures
            r.options() is None,
            r.quits_on_abort(),
    {
        Session::new(true)
    }

    /// Keeps the options sent back to the MTA; they govern the rest of the
    /// conversation.
    pub fn record_options(&mut self, options: &OptNeg)
        requires
            options.wf(),
        ensures
            final(self).options() is Some,
            final(self).options()->0.view() == options.view(),
            final(self).options()->0.wf(),
            final(self).quits_on_abort() == old(self).quits_on_abort(),
    {
        self.options = Some(options.duplicate());
    }

    /// The capabilities in force.
    pub fn capabilities(&self) -> (r: Capability)
        ensures
            r@ == effective_capabilities(self.options()),
    {
        match &self.options {
            Some(o) => o.capabilities,
            None => Capability::all(),
        }
    }

    /// The messages that answer the end of the body: the modifications that
    /// the capabilities in force allow, in order, then the final action.
    pub fn end_of_body_reply(&self, response: ModificationResponse) -> (r: Vec<ServerMessage>)
        ensures
            ({
                let kept = kept_by_caps(response.mods(), effective_capabilities(self.options()));
                &&& r@.len() == kept.len() + 1
                &&& forall|i: int|
                    0 <= i < kept.len() ==> r@[i] == ServerMessage::ModificationAction(
                        #[trigger] kept[i],
                    )
                &&& r@[r@.len() - 1] == ServerMessage::Action(response.last_action())
            }),
    {
        let mut response = response;
        response.filter_mods_by_caps(self.capabilities());
        response.into_messages()
    }

    /// Decides what follows the abort callback's `action`.
    pub fn abort_outcome(&self, action: Action) -> (r: AbortOutcome)
        ensures
            self.quits_on_abort() ==> r is Quit,
            !self.quits_on_abort() ==> r == AbortOutcome::Respond(ServerMessage::Action(action)),
    {
        if self.quit_on_abort {
            AbortOutcome::Quit
        } else {
            AbortOutcome::Respond(ServerMessage::Action(action))
        }
    }
}

/// Decodes one frame sent by the MTA from the front of `buffer`, under the
/// default bound.
pub fn fuzz_parse(buffer: &mut BytesMut) -> (r: Result<Option<ClientCommand>, ProtocolError>)
    ensures
        (client_outcome(r), bytes_of(*final(buffer))) == decode_spec(
            bytes_of(*old(buffer)),
            DEFAULT_MAX_BUFFER_SIZE,
            |s: Seq<u8>| parse_client(s),
        ),
{
    MilterCodec::new(DEFAULT_MAX_BUFFER_SIZE).decode_client(buffer)
}

/// The filter's default answer to the MTA's options: its own defaults (every
/// capability, no protocol flag) merged with what the MTA offers.
pub fn default_option_negotiation(theirs: &OptNeg) -> (r: Result<OptNeg, ProtocolError>)
    ensures
        theirs.version > OptNeg::VERSION <==> r is Err,
        r is Err ==> r->Err_0 is CompatibilityError,
        r is Ok ==> r->Ok_0.wf() && r->Ok_0.version == OptNeg::VERSION && r->Ok_0.capabilities@
            == all_capability_bits() & theirs.capabilities@ && r->Ok_0.protocol@ == 0u32
            & theirs.protocol@,
{
    let ours = OptNeg::default();
    match ours.merge_compatible(theirs) {
        Ok(o) => Ok(o),
        Err(e) => Err(ProtocolError::CompatibilityError(e)),
    }
}

} // verus!
