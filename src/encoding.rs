//! What each end of the conversation writes to the wire.
use bytes::BytesMut;
use vstd::prelude::*;

use crate::actions::Action;
use crate::buffer::{bytes_of, capped};
use crate::commands::Command;
use crate::message::{code_of, payload_of, MessageView};
use crate::modifications::{ModificationAction, ModificationResponse};
use crate::optneg::OptNeg;

verus! {

/// A message sent by the filter.
#[derive(Debug)]
pub enum ServerMessage {
    /// Options of the sending end
    Optneg(OptNeg),
    /// A control-flow action
    Action(Action),
    /// A modification of the mail
    ModificationAction(ModificationAction),
}

impl ServerMessage {
    pub open spec fn view(&self) -> MessageView {
        match self {
            ServerMessage::Optneg(m) => m.view(),
            ServerMessage::Action(m) => m.view(),
            ServerMessage::ModificationAction(m) => m.view(),
        }
    }

    /// Negotiated options hold one symbol list per macro stage.
    pub open spec fn wf(&self) -> bool {
        match self {
            ServerMessage::Optneg(m) => m.wf(),
            _ => true,
        }
    }

    pub fn write(&self, buffer: &mut BytesMut)
        requires
            self.wf(),
            bytes_of(*old(buffer)).len() + payload_of(self.view()).len() <= isize::MAX,
        ensures
            bytes_of(*final(buffer)) == bytes_of(*old(buffer)) + payload_of(self.view()),
    {
        match self {
            ServerMessage::Optneg(m) => m.write(buffer),
            ServerMessage::Action(m) => m.write(buffer),
            ServerMessage::ModificationAction(m) => m.write(buffer),
        }
    }

    pub fn len(&self) -> (r: usize)
        requires
            self.wf(),
        ensures
            r == capped(payload_of(self.view()).len()),
    {
        match self {
            ServerMessage::Optneg(m) => m.len(),
            ServerMessage::Action(m) => m.len(),
            ServerMessage::ModificationAction(m) => m.len(),
        }
    }

    pub fn code(&self) -> (r: u8)
        ensures
            r == code_of(self.view()),
    {
        match self {
            ServerMessage::Optneg(m) => m.code(),
            ServerMessage::Action(m) => m.code(),
            ServerMessage::ModificationAction(m) => m.code(),
        }
    }
}

/// A message sent by the MTA.
#[derive(Debug)]
pub enum ClientMessage {
    /// Options of the sending end
    Optneg(OptNeg),
    /// A control-flow action
    Action(Action),
    /// An SMTP-derived command
    Command(Command),
}

impl ClientMessage {
    pub open spec fn view(&self) -> MessageView {
        match self {
            ClientMessage::Optneg(m) => m.view(),
            ClientMessage::Action(m) => m.view(),
            ClientMessage::Command(m) => m.view(),
        }
    }

    /// Negotiated options hold one symbol list per macro stage.
    pub open spec fn wf(&self) -> bool {
        match self {
            ClientMessage::Optneg(m) => m.wf(),
            _ => true,
        }
    }

    pub fn write(&self, buffer: &mut BytesMut)
        requires
            self.wf(),
            bytes_of(*old(buffer)).len() + payload_of(self.view()).len() <= isize::MAX,
        ensures
            bytes_of(*final(buffer)) == bytes_of(*old(buffer)) + payload_of(self.view()),
    {
        match self {
            ClientMessage::Optneg(m) => m.write(buffer),
            ClientMessage::Action(m) => m.write(buffer),
            ClientMessage::Command(m) => m.write(buffer),
        }
    }

    pub fn len(&self) -> (r: usize)
        requires
            self.wf(),
        ensures
            r == capped(payload_of(self.view()).len()),
    {
        match self {
            ClientMessage::Optneg(m) => m.len(),
            ClientMessage::Action(m) => m.len(),
            ClientMessage::Command(m) => m.len(),
        }
    }

    pub fn code(&self) -> (r: u8)
        ensures
            r == code_of(self.view()),
    {
        match self {
            ClientMessage::Optneg(m) => m.code(),
            ClientMessage::Action(m) => m.code(),
            ClientMessage::Command(m) => m.code(),
        }
    }
}

impl ModificationResponse {
    /// The messages that carry this response: every modification in order,
    /// then the final action.
    pub fn into_messages(self) -> (r: Vec<ServerMessage>)
        ensures
            r@.len() == self.mods().len() + 1,
            forall|i: int|
                0 <= i < self.mods().len() ==> r@[i] == ServerMessage::ModificationAction(
                    #[trigger] self.mods()[i],
                ),
            r@[r@.len() - 1] == ServerMessage::Action(self.last_action()),
    {
        let (mut mods, final_action) = self.into_parts();
        let ghost orig = mods@;
        let mut out: Vec<ServerMessage> = Vec::new();
        let mut k: usize = 0;
        let _n = mods.len();
        while mods.len() > 0
            invariant
                k <= orig.len(),
                orig.len() <= usize::MAX,
                mods@ == orig.skip(k as int),
                out@.len() == k,
                forall|i: int|
                    0 <= i < k ==> out@[i] == ServerMessage::ModificationAction(
                        #[trigger] orig[i],
                    ),
            decreases mods@.len(),
        {
            let m = mods.remove(0);
            assert(m == orig[k as int]);
            out.push(ServerMessage::ModificationAction(m));
            k = k + 1;
            assert(mods@ =~= orig.skip(k as int));
        }
        out.push(ServerMessage::Action(final_action));
        out
    }
}

} // verus!
