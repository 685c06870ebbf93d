//! Modifications: the changes to a mail that a filter asks for at the end of
//! the body, and the response that carries them.
use bytes::BytesMut;
use vstd::prelude::*;

use crate::actions::{Abort, Action, Continue};
use crate::buffer::{
    buf_append, buf_from_slice, buf_len, buf_put_u32, buf_to_vec, bytes_of, capped, sat_add,
};
use crate::commands::{write_field, Header};
use crate::error::{invalid, not_enough, not_enough_with, ProtocolError};
use crate::message::{
    parse_add_header, parse_add_recipient, parse_change_header, parse_delete_recipient,
    parse_insert_header, payload_of, MessageView, CODE_ADD_HEADER, CODE_ADD_RECIPIENT,
    CODE_CHANGE_HEADER, CODE_DELETE_RECIPIENT, CODE_INSERT_HEADER, CODE_QUARANTINE,
    CODE_REPLACE_BODY,
};
use crate::optneg::{has_flag, Capability};
use crate::parsing::{delimited, safe_get_u32};

verus! {

/// Add a recipient (the To header stays as it is).
#[derive(Debug)]
pub struct AddRecipient {
    /// The recipient to add
    pub recipient: BytesMut,
}

impl AddRecipient {
    pub const CODE: u8 = CODE_ADD_RECIPIENT;

    pub open spec fn view(&self) -> MessageView {
        MessageView::AddRecipient { recipient: bytes_of(self.recipient) }
    }

    pub fn new(recipient: &[u8]) -> (r: Self)
        ensures
            r.view() == (MessageView::AddRecipient { recipient: recipient@ }),
    {
        AddRecipient { recipient: buf_from_slice(recipient) }
    }

    /// The recipient to add
    pub fn recipient(&self) -> (r: Vec<u8>)
        ensures
            r@ == bytes_of(self.recipient),
    {
        buf_to_vec(&self.recipient)
    }

    pub fn parse(mut buffer: BytesMut) -> (r: Result<Self, ProtocolError>)
        ensures
            parse_add_recipient(bytes_of(buffer)) == match r {
                Ok(m) => Ok(m.view()),
                Err(e) => Err(e.kind()),
            },
    {
        match delimited(&mut buffer, 0) {
            Some(recipient) => Ok(AddRecipient { recipient }),
            None => Err(invalid("Received add recipient package without null byte terminating it", buffer)),
        }
    }

    pub fn write(&self, buffer: &mut BytesMut)
        requires
            bytes_of(*old(buffer)).len() + payload_of(self.view()).len() <= isize::MAX,
        ensures
            bytes_of(*final(buffer)) == bytes_of(*old(buffer)) + payload_of(self.view()),
    {
        write_field(buffer, &self.recipient);
    }

    pub fn len(&self) -> (r: usize)
        ensures
            r == capped(payload_of(self.view()).len()),
    {
        sat_add(buf_len(&self.recipient), 1)
    }

    pub fn code(&self) -> (r: u8)
        ensures
            r == Self::CODE,
    {
        Self::CODE
    }
}

/// Delete a recipient (the To header stays as it is).
#[derive(Debug)]
pub struct DeleteRecipient {
    /// The (exact) recipient to delete
    pub recipient: BytesMut,
}

impl DeleteRecipient {
    pub const CODE: u8 = CODE_DELETE_RECIPIENT;

    pub open spec fn view(&self) -> MessageView {
        MessageView::DeleteRecipient { recipient: bytes_of(self.recipient) }
    }

    pub fn new(recipient: &[u8]) -> (r: Self)
        ensures
            r.view() == (MessageView::DeleteRecipient { recipient: recipient@ }),
    {
        DeleteRecipient { recipient: buf_from_slice(recipient) }
    }

    /// The (exact) recipient to delete
    pub fn recipient(&self) -> (r: Vec<u8>)
        ensures
            r@ == bytes_of(self.recipient),
    {
        buf_to_vec(&self.recipient)
    }

    pub fn parse(mut buffer: BytesMut) -> (r: Result<Self, ProtocolError>)
        ensures
            parse_delete_recipient(bytes_of(buffer)) == match r {
                Ok(m) => Ok(m.view()),
                Err(e) => Err(e.kind()),
            },
    {
        match delimited(&mut buffer, 0) {
            Some(recipient) => Ok(DeleteRecipient { recipient }),
            None => Err(invalid("Received delete recipient package without null byte terminating it", buffer)),
        }
    }

    pub fn write(&self, buffer: &mut BytesMut)
        requires
            bytes_of(*old(buffer)).len() + payload_of(self.view()).len() <= isize::MAX,
        ensures
            bytes_of(*final(buffer)) == bytes_of(*old(buffer)) + payload_of(self.view()),
    {
        write_field(buffer, &self.recipient);
    }

    pub fn len(&self) -> (r: usize)
        ensures
            r == capped(payload_of(self.view()).len()),
    {
        sat_add(buf_len(&self.recipient), 1)
    }

    pub fn code(&self) -> (r: u8)
        ensures
            r == Self::CODE,
    {
        Self::CODE
    }
}

/// Replace the body of the mail; the whole new body is sent, possibly across several of these.
#[derive(Debug)]
pub struct ReplaceBody {
    /// A part of the new body
    pub body: BytesMut,
}

impl ReplaceBody {
    pub const CODE: u8 = CODE_REPLACE_BODY;

    pub open spec fn view(&self) -> MessageView {
        MessageView::ReplaceBody { body: bytes_of(self.body) }
    }

    pub fn new(body: &[u8]) -> (r: Self)
        ensures
            r.view() == (MessageView::ReplaceBody { body: body@ }),
    {
        ReplaceBody { body: buf_from_slice(body) }
    }

    /// A part of the new body
    pub fn body(&self) -> (r: Vec<u8>)
        ensures
            r@ == bytes_of(self.body),
    {
        buf_to_vec(&self.body)
    }

    /// Takes the whole payload.
    pub fn parse(buffer: BytesMut) -> (r: Result<Self, ProtocolError>)
        ensures
            r is Ok,
            r->Ok_0.view() == (MessageView::ReplaceBody { body: bytes_of(buffer) }),
    {
        Ok(ReplaceBody { body: buffer })
    }

    pub fn write(&self, buffer: &mut BytesMut)
        requires
            bytes_of(*old(buffer)).len() + payload_of(self.view()).len() <= isize::MAX,
        ensures
            bytes_of(*final(buffer)) == bytes_of(*old(buffer)) + payload_of(self.view()),
    {
        buf_append(buffer, &self.body);
    }

    pub fn len(&self) -> (r: usize)
        ensures
            r == capped(payload_of(self.view()).len()),
    {
        buf_len(&self.body)
    }

    pub fn code(&self) -> (r: u8)
        ensures
            r == Self::CODE,
    {
        Self::CODE
    }
}

/// Put the mail into the MTA's holding pool.
#[derive(Debug)]
pub struct Quarantine {
    /// Why the mail was quarantined
    pub reason: BytesMut,
}

impl Quarantine {
    pub const CODE: u8 = CODE_QUARANTINE;

    pub open spec fn view(&self) -> MessageView {
        MessageView::Quarantine { reason: bytes_of(self.reason) }
    }

    pub fn new(reason: &[u8]) -> (r: Self)
        ensures
            r.view() == (MessageView::Quarantine { reason: reason@ }),
    {
        Quarantine { reason: buf_from_slice(reason) }
    }

    /// Why the mail was quarantined
    pub fn reason(&self) -> (r: Vec<u8>)
        ensures
            r@ == bytes_of(self.reason),
    {
        buf_to_vec(&self.reason)
    }

    /// Takes the whole payload.
    pub fn parse(buffer: BytesMut) -> (r: Result<Self, ProtocolError>)
        ensures
            r is Ok,
            r->Ok_0.view() == (MessageView::Quarantine { reason: bytes_of(buffer) }),
    {
        Ok(Quarantine { reason: buffer })
    }

    pub fn write(&self, buffer: &mut BytesMut)
        requires
            bytes_of(*old(buffer)).len() + payload_of(self.view()).len() <= isize::MAX,
        ensures
            bytes_of(*final(buffer)) == bytes_of(*old(buffer)) + payload_of(self.view()),
    {
        write_field(buffer, &self.reason);
    }

    pub fn len(&self) -> (r: usize)
        ensures
            r == capped(payload_of(self.view()).len()),
    {
        sat_add(buf_len(&self.reason), 1)
    }

    pub fn code(&self) -> (r: u8)
        ensures
            r == Self::CODE,
    {
        Self::CODE
    }
}

/// Add a header.
#[derive(Debug)]
pub struct AddHeader {
    /// The header to add
    pub header: Header,
}

impl AddHeader {
    pub const CODE: u8 = CODE_ADD_HEADER;

    pub open spec fn view(&self) -> MessageView {
        MessageView::AddHeader { name: self.header.fields().0, value: self.header.fields().1 }
    }

    pub fn new(name: &[u8], value: &[u8]) -> (r: Self)
        ensures
            r.view() == (MessageView::AddHeader { name: name@, value: value@ }),
    {
        AddHeader { header: Header::new(name, value) }
    }

    /// The name of the header.
    pub fn name(&self) -> (r: Vec<u8>)
        ensures
            r@ == self.header.fields().0,
    {
        self.header.name()
    }

    /// The value of the header.
    pub fn value(&self) -> (r: Vec<u8>)
        ensures
            r@ == self.header.fields().1,
    {
        self.header.value()
    }

    pub fn parse(buffer: BytesMut) -> (r: Result<Self, ProtocolError>)
        ensures
            parse_add_header(bytes_of(buffer)) == match r {
                Ok(m) => Ok(m.view()),
                Err(e) => Err(e.kind()),
            },
    {
        let header = Header::parse(buffer)?;
        Ok(AddHeader { header })
    }

    pub fn write(&self, buffer: &mut BytesMut)
        requires
            bytes_of(*old(buffer)).len() + payload_of(self.view()).len() <= isize::MAX,
        ensures
            bytes_of(*final(buffer)) == bytes_of(*old(buffer)) + payload_of(self.view()),
    {
        self.header.write(buffer);
    }

    pub fn len(&self) -> (r: usize)
        ensures
            r == capped(payload_of(self.view()).len()),
    {
        self.header.len()
    }

    pub fn code(&self) -> (r: u8)
        ensures
            r == Self::CODE,
    {
        Self::CODE
    }
}

/// Insert a header at a given place.
#[derive(Debug)]
pub struct InsertHeader {
    /// The place in the list of headers at which to insert
    pub index: u32,
    /// The header's name and value
    pub header: Header,
}

impl InsertHeader {
    pub const CODE: u8 = CODE_INSERT_HEADER;

    pub open spec fn view(&self) -> MessageView {
        MessageView::InsertHeader {
            index: self.index,
            name: self.header.fields().0,
            value: self.header.fields().1,
        }
    }

    pub fn new(index: u32, name: &[u8], value: &[u8]) -> (r: Self)
        ensures
            r.view() == (MessageView::InsertHeader { index, name: name@, value: value@ }),
    {
        InsertHeader { index, header: Header::new(name, value) }
    }

    /// The name of the header.
    pub fn name(&self) -> (r: Vec<u8>)
        ensures
            r@ == self.header.fields().0,
    {
        self.header.name()
    }

    /// The value of the header.
    pub fn value(&self) -> (r: Vec<u8>)
        ensures
            r@ == self.header.fields().1,
    {
        self.header.value()
    }

    /// The place in the list of headers at which to insert
    pub fn index(&self) -> (r: u32)
        ensures
            r == self.index,
    {
        self.index
    }

    pub fn parse(mut buffer: BytesMut) -> (r: Result<Self, ProtocolError>)
        ensures
            parse_insert_header(bytes_of(buffer)) == match r {
                Ok(m) => Ok(m.view()),
                Err(e) => Err(e.kind()),
            },
            bytes_of(buffer).len() < 4 ==> r is Err && not_enough_with(
                r->Err_0,
                "InsertHeader",
                4,
                bytes_of(buffer).len() as usize,
            ),
    {
        let got = buf_len(&buffer);
        let index = match safe_get_u32(&mut buffer) {
            Some(i) => i,
            None => {
                return Err(not_enough("InsertHeader", "Index byte missing", 4, got, buffer));
            },
        };
        let header = Header::parse(buffer)?;
        Ok(InsertHeader { index, header })
    }

    pub fn write(&self, buffer: &mut BytesMut)
        requires
            bytes_of(*old(buffer)).len() + payload_of(self.view()).len() <= isize::MAX,
        ensures
            bytes_of(*final(buffer)) == bytes_of(*old(buffer)) + payload_of(self.view()),
    {
        buf_put_u32(buffer, self.index);
        self.header.write(buffer);
        assert(bytes_of(*buffer) =~= bytes_of(*old(buffer)) + payload_of(self.view()));
    }

    pub fn len(&self) -> (r: usize)
        ensures
            r == capped(payload_of(self.view()).len()),
    {
        sat_add(4, self.header.len())
    }

    pub fn code(&self) -> (r: u8)
        ensures
            r == Self::CODE,
    {
        Self::CODE
    }
}

/// Change (or, with an empty value, delete) an existing header.
#[derive(Debug)]
pub struct ChangeHeader {
    /// Which of the headers sharing this name to change, counted per name
    pub index: u32,
    /// The header's name and value
    pub header: Header,
}

impl ChangeHeader {
    pub const CODE: u8 = CODE_CHANGE_HEADER;

    pub open spec fn view(&self) -> MessageView {
        MessageView::ChangeHeader {
            index: self.index,
            name: self.header.fields().0,
            value: self.header.fields().1,
        }
    }

    pub fn new(index: u32, name: &[u8], value: &[u8]) -> (r: Self)
        ensures
            r.view() == (MessageView::ChangeHeader { index, name: name@, value: value@ }),
    {
        ChangeHeader { index, header: Header::new(name, value) }
    }

    /// The name of the header.
    pub fn name(&self) -> (r: Vec<u8>)
        ensures
            r@ == self.header.fields().0,
    {
        self.header.name()
    }

    /// The value of the header.
    pub fn value(&self) -> (r: Vec<u8>)
        ensures
            r@ == self.header.fields().1,
    {
        self.header.value()
    }

    /// Which of the headers sharing this name to change, counted per name
    pub fn index(&self) -> (r: u32)
        ensures
            r == self.index,
    {
        self.index
    }

    pub fn parse(mut buffer: BytesMut) -> (r: Result<Self, ProtocolError>)
        ensures
            parse_change_header(bytes_of(buffer)) == match r {
                Ok(m) => Ok(m.view()),
                Err(e) => Err(e.kind()),
            },
            bytes_of(buffer).len() < 4 ==> r is Err && not_enough_with(
                r->Err_0,
                "ChangeHeader",
                4,
                bytes_of(buffer).len() as usize,
            ),
    {
        let got = buf_len(&buffer);
        let index = match safe_get_u32(&mut buffer) {
            Some(i) => i,
            None => {
                return Err(not_enough("ChangeHeader", "Index byte missing", 4, got, buffer));
            },
        };
        let header = Header::parse(buffer)?;
        Ok(ChangeHeader { index, header })
    }

    pub fn write(&self, buffer: &mut BytesMut)
        requires
            bytes_of(*old(buffer)).len() + payload_of(self.view()).len() <= isize::MAX,
        ensures
            bytes_of(*final(buffer)) == bytes_of(*old(buffer)) + payload_of(self.view()),
    {
        buf_put_u32(buffer, self.index);
        self.header.write(buffer);
        assert(bytes_of(*buffer) =~= bytes_of(*old(buffer)) + payload_of(self.view()));
    }

    pub fn len(&self) -> (r: usize)
        ensures
            r == capped(payload_of(self.view()).len()),
    {
        sat_add(4, self.header.len())
    }

    pub fn code(&self) -> (r: u8)
        ensures
            r == Self::CODE,
    {
        Self::CODE
    }
}

/// The modifications that a filter may ask for.
#[derive(Debug)]
pub enum ModificationAction {
    AddRecipient(AddRecipient),
    DeleteRecipient(DeleteRecipient),
    ReplaceBody(ReplaceBody),
    AddHeader(AddHeader),
    InsertHeader(InsertHeader),
    ChangeHeader(ChangeHeader),
    Quarantine(Quarantine),
}

/// The capability that a modification needs.
pub open spec fn required_capability(m: MessageView) -> u32 {
    match m {
        MessageView::AddHeader { .. } => Capability::SMFIF_ADDHDRS,
        MessageView::ReplaceBody { .. } => Capability::SMFIF_CHGBODY,
        MessageView::AddRecipient { .. } => Capability::SMFIF_ADDRCPT,
        MessageView::DeleteRecipient { .. } => Capability::SMFIF_DELRCPT,
        MessageView::ChangeHeader { .. } => Capability::SMFIF_CHGHDRS,
        MessageView::InsertHeader { .. } => Capability::SMFIF_CHGHDRS,
        MessageView::Quarantine { .. } => Capability::SMFIF_QUARANTINE,
        _ => 0,
    }
}

/// The capabilities `caps` allow the modification `m`.
pub open spec fn permits(caps: u32, m: MessageView) -> bool {
    has_flag(caps, required_capability(m))
}

impl ModificationAction {
    pub open spec fn view(&self) -> MessageView {
        match self {
            ModificationAction::AddRecipient(m) => m.view(),
            ModificationAction::DeleteRecipient(m) => m.view(),
            ModificationAction::ReplaceBody(m) => m.view(),
            ModificationAction::AddHeader(m) => m.view(),
            ModificationAction::InsertHeader(m) => m.view(),
            ModificationAction::ChangeHeader(m) => m.view(),
            ModificationAction::Quarantine(m) => m.view(),
        }
    }

    pub fn write(&self, buffer: &mut BytesMut)
        requires
            bytes_of(*old(buffer)).len() + payload_of(self.view()).len() <= isize::MAX,
        ensures
            bytes_of(*final(buffer)) == bytes_of(*old(buffer)) + payload_of(self.view()),
    {
        match self {
            ModificationAction::AddRecipient(m) => m.write(buffer),
            ModificationAction::DeleteRecipient(m) => m.write(buffer),
            ModificationAction::ReplaceBody(m) => m.write(buffer),
            ModificationAction::AddHeader(m) => m.write(buffer),
            ModificationAction::InsertHeader(m) => m.write(buffer),
            ModificationAction::ChangeHeader(m) => m.write(buffer),
            ModificationAction::Quarantine(m) => m.write(buffer),
        }
    }

    pub fn len(&self) -> (r: usize)
        ensures
            r == capped(payload_of(self.view()).len()),
    {
        match self {
            ModificationAction::AddRecipient(m) => m.len(),
            ModificationAction::DeleteRecipient(m) => m.len(),
            ModificationAction::ReplaceBody(m) => m.len(),
            ModificationAction::AddHeader(m) => m.len(),
            ModificationAction::InsertHeader(m) => m.len(),
            ModificationAction::ChangeHeader(m) => m.len(),
            ModificationAction::Quarantine(m) => m.len(),
        }
    }

    pub fn code(&self) -> (r: u8)
        ensures
            r == crate::message::code_of(self.view()),
    {
        match self {
            ModificationAction::AddRecipient(m) => m.code(),
            ModificationAction::DeleteRecipient(m) => m.code(),
            ModificationAction::ReplaceBody(m) => m.code(),
            ModificationAction::AddHeader(m) => m.code(),
            ModificationAction::InsertHeader(m) => m.code(),
            ModificationAction::ChangeHeader(m) => m.code(),
            ModificationAction::Quarantine(m) => m.code(),
        }
    }

    /// Whether `capabilities` allow this modification.
    pub fn matches_caps(&self, capabilities: Capability) -> (r: bool)
        ensures
            r == permits(capabilities@, self.view()),
    {
        match self {
            ModificationAction::AddHeader(_) => capabilities.contains(Capability::SMFIF_ADDHDRS),
            ModificationAction::ReplaceBody(_) => capabilities.contains(Capability::SMFIF_CHGBODY),
            ModificationAction::AddRecipient(_) => capabilities.contains(Capability::SMFIF_ADDRCPT),
            ModificationAction::DeleteRecipient(_) => capabilities.contains(
                Capability::SMFIF_DELRCPT,
            ),
            ModificationAction::ChangeHeader(_) => capabilities.contains(Capability::SMFIF_CHGHDRS),
            ModificationAction::InsertHeader(_) => capabilities.contains(Capability::SMFIF_CHGHDRS),
            ModificationAction::Quarantine(_) => capabilities.contains(
                Capability::SMFIF_QUARANTINE,
            ),
        }
    }
}

/// The modifications of `mods` that `caps` allow, in order.
pub open spec fn kept_by_caps(mods: Seq<ModificationAction>, caps: u32) -> Seq<ModificationAction> {
    mods.filter(|m: ModificationAction| permits(caps, m.view()))
}

/// A filter's answer to the end of the body: modifications, then one action.
#[derive(Debug)]
pub struct ModificationResponse {
    modifications: Vec<ModificationAction>,
    final_action: Action,
}

impl ModificationResponse {
    /// The modifications, in the order they were pushed.
    pub closed spec fn mods(&self) -> Seq<ModificationAction> {
        self.modifications@
    }

    /// The action that ends the response.
    pub closed spec fn last_action(&self) -> Action {
        self.final_action
    }

    /// A builder to assemble a modification response.
    pub fn builder() -> (r: ModificationResponseBuilder)
        ensures
            r.mods() == Seq::<ModificationAction>::empty(),
    {
        ModificationResponseBuilder { modifications: Vec::new() }
    }

    /// An empty response that just continues.
    pub fn empty_continue() -> (r: Self)
        ensures
            r.mods() == Seq::<ModificationAction>::empty(),
            r.last_action() is Continue,
    {
        ModificationResponse { modifications: Vec::new(), final_action: Action::Continue(Continue) }
    }

    /// Keep only the modifications that `capabilities` allow, in order.
    pub fn filter_mods_by_caps(&mut self, capabilities: Capability)
        ensures
            final(self).mods() == kept_by_caps(old(self).mods(), capabilities@),
            final(self).last_action() == old(self).last_action(),
    {
        let mut rest: Vec<ModificationAction> = Vec::new();
        std::mem::swap(&mut rest, &mut self.modifications);
        let ghost orig = rest@;
        let _n = rest.len();
        let ghost pred = |m: ModificationAction| permits(capabilities@, m.view());
        let mut k: usize = 0;
        assert(orig.take(0) =~= Seq::<ModificationAction>::empty());
        proof {
            reveal_with_fuel(Seq::<ModificationAction>::filter, 1);
        }
        while rest.len() > 0
            invariant
                k <= orig.len(),
                orig.len() <= usize::MAX,
                rest@ == orig.skip(k as int),
                self.modifications@ == orig.take(k as int).filter(pred),
                self.final_action == old(self).final_action,
                pred == (|m: ModificationAction| permits(capabilities@, m.view())),
            decreases rest@.len(),
        {
            let m = rest.remove(0);
            proof {
                assert(orig.take(k + 1) =~= orig.take(k as int).push(m));
                orig.take(k as int).lemma_filter_push(m, pred);
            }
            if m.matches_caps(capabilities) {
                self.modifications.push(m);
            }
            k = k + 1;
            assert(rest@ =~= orig.skip(k as int));
        }
        assert(orig.take(k as int) =~= orig);
    }

    /// The modifications, in order.
    pub fn modifications(&self) -> (r: &Vec<ModificationAction>)
        ensures
            r@ == self.mods(),
    {
        &self.modifications
    }

    /// The action that ends the response.
    pub fn final_action(&self) -> (r: &Action)
        ensures
            *r == self.last_action(),
    {
        &self.final_action
    }

    /// Splits into the modifications and the final action.
    pub fn into_parts(self) -> (r: (Vec<ModificationAction>, Action))
        ensures
            r.0@ == self.mods(),
            r.1 == self.last_action(),
    {
        (self.modifications, self.final_action)
    }
}

/// Gathers modifications until a final action completes the response.
#[derive(Debug)]
pub struct ModificationResponseBuilder {
    modifications: Vec<ModificationAction>,
}

impl ModificationResponseBuilder {
    /// The modifications pushed so far, in order.
    pub closed spec fn mods(&self) -> Seq<ModificationAction> {
        self.modifications@
    }

    /// Push another modification.
    pub fn push(&mut self, mod_action: ModificationAction)
        ensures
            final(self).mods() == old(self).mods().push(mod_action),
    {
        self.modifications.push(mod_action);
    }

    /// Finish with `Abort`.
    pub fn abort(self) -> (r: ModificationResponse)
        ensures
            r.mods() == self.mods(),
            r.last_action() is Abort,
    {
        self.build(Action::Abort(Abort))
    }

    /// Finish with `Continue`.
    pub fn contin(self) -> (r: ModificationResponse)
        ensures
            r.mods() == self.mods(),
            r.last_action() is Continue,
    {
        self.build(Action::Continue(Continue))
    }

    /// Finish with the given action.
    pub fn build(self, final_action: Action) -> (r: ModificationResponse)
        ensures
            r.mods() == self.mods(),
            r.last_action() == final_action,
    {
        ModificationResponse { modifications: self.modifications, final_action }
    }
}

} // verus!
