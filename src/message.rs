//! The mathematical model of every message on the wire: what a message holds,
//! the payload it is written as, and what the parsers make of a payload.
use vstd::prelude::*;

use crate::buffer::{be_u16, be_u32, u16_be_bytes, u32_be_bytes};
use crate::commands::Family;
use crate::error::ErrorKind;
use crate::parsing::{split_delim, split_fields};

verus! {

/// A message as the wire sees it.
pub enum MessageView {
    OptNeg { version: u32, capabilities: u32, protocol: u32, stages: Seq<Seq<Seq<u8>>> },
    Connect { hostname: Seq<u8>, family: Family, port: Option<u16>, address: Seq<u8> },
    Helo { helo: Seq<u8> },
    Mail { sender: Seq<u8>, esmtp_args: Option<Seq<u8>> },
    Recipient { recipient: Seq<u8>, esmtp_args: Option<Seq<u8>> },
    Header { name: Seq<u8>, value: Seq<u8> },
    Body { body: Seq<u8> },
    Unknown { data: Seq<u8> },
    Macro { code: u8, macros: Seq<(Seq<u8>, Seq<u8>)> },
    /// A message without payload, told apart by its code alone.
    Empty { code: u8 },
    Replycode {
        rcode: Seq<u16>,
        rcode_text: Seq<u8>,
        xcode: Seq<u16>,
        xcode_text: Seq<u8>,
        message: Seq<u8>,
    },
    AddRecipient { recipient: Seq<u8> },
    DeleteRecipient { recipient: Seq<u8> },
    ReplaceBody { body: Seq<u8> },
    AddHeader { name: Seq<u8>, value: Seq<u8> },
    InsertHeader { index: u32, name: Seq<u8>, value: Seq<u8> },
    ChangeHeader { index: u32, name: Seq<u8>, value: Seq<u8> },
    Quarantine { reason: Seq<u8> },
}

pub const CODE_OPTNEG: u8 = 79;
pub const CODE_CONNECT: u8 = 67;
pub const CODE_HELO: u8 = 72;
pub const CODE_MAIL: u8 = 77;
pub const CODE_RECIPIENT: u8 = 82;
pub const CODE_DATA: u8 = 84;
pub const CODE_HEADER: u8 = 76;
pub const CODE_END_OF_HEADER: u8 = 78;
pub const CODE_BODY: u8 = 66;
pub const CODE_END_OF_BODY: u8 = 69;
pub const CODE_UNKNOWN: u8 = 85;
pub const CODE_MACRO: u8 = 68;
pub const CODE_ABORT: u8 = 65;
pub const CODE_CONTINUE: u8 = 99;
pub const CODE_QUIT: u8 = 81;
pub const CODE_QUIT_NC: u8 = 75;
pub const CODE_DISCARD: u8 = 100;
pub const CODE_REJECT: u8 = 114;
pub const CODE_TEMPFAIL: u8 = 116;
pub const CODE_SKIP: u8 = 115;
pub const CODE_REPLYCODE: u8 = 121;
pub const CODE_ADD_RECIPIENT: u8 = 43;
pub const CODE_DELETE_RECIPIENT: u8 = 45;
pub const CODE_REPLACE_BODY: u8 = 98;
pub const CODE_ADD_HEADER: u8 = 104;
pub const CODE_INSERT_HEADER: u8 = 105;
pub const CODE_CHANGE_HEADER: u8 = 109;
pub const CODE_QUARANTINE: u8 = 113;

/// The codes of the messages without payload.
pub open spec fn is_empty_code(c: u8) -> bool {
    c == CODE_DATA || c == CODE_END_OF_HEADER || c == CODE_END_OF_BODY || c == CODE_ABORT || c
        == CODE_CONTINUE || c == CODE_QUIT || c == CODE_QUIT_NC || c == CODE_DISCARD || c
        == CODE_REJECT || c == CODE_TEMPFAIL || c == CODE_SKIP
}

/// The byte that stands for a connection family.
pub open spec fn family_byte(f: Family) -> u8 {
    match f {
        Family::Unknown => 85,
        Family::Unix => 76,
        Family::Inet => 52,
        Family::Inet6 => 54,
    }
}

/// The connection family a byte stands for.
pub open spec fn family_of_byte(b: u8) -> Option<Family> {
    if b == 85 {
        Some(Family::Unknown)
    } else if b == 76 {
        Some(Family::Unix)
    } else if b == 52 {
        Some(Family::Inet)
    } else if b == 54 {
        Some(Family::Inet6)
    } else {
        None
    }
}

/// A field followed by its terminating NUL.
pub open spec fn nul_terminated(s: Seq<u8>) -> Seq<u8> {
    s.push(0)
}

/// The symbols of one stage, joined by single spaces.
pub open spec fn join_symbols(symbols: Seq<Seq<u8>>) -> Seq<u8>
    decreases symbols.len(),
{
    if symbols.len() == 0 {
        Seq::empty()
    } else if symbols.len() == 1 {
        symbols[0]
    } else {
        join_symbols(symbols.drop_last()).push(32) + symbols.last()
    }
}

/// The macro-stages blob for the stages from `i` on: each non-empty stage as
/// its id, its joined symbols and a NUL.
pub open spec fn stages_blob_from(stages: Seq<Seq<Seq<u8>>>, i: int) -> Seq<u8>
    decreases stages.len() - i,
{
    if i < 0 || i >= stages.len() {
        Seq::empty()
    } else if stages[i].len() == 0 {
        stages_blob_from(stages, i + 1)
    } else {
        u32_be_bytes(i as u32) + nul_terminated(join_symbols(stages[i])) + stages_blob_from(
            stages,
            i + 1,
        )
    }
}

/// The payload of `m`: what follows its code in a frame.
pub open spec fn payload_of(m: MessageView) -> Seq<u8> {
    match m {
        MessageView::OptNeg { version, capabilities, protocol, stages } => u32_be_bytes(version)
            + u32_be_bytes(capabilities) + u32_be_bytes(protocol) + stages_blob_from(stages, 0),
        MessageView::Connect { hostname, family, port, address } => nul_terminated(hostname).push(
            family_byte(family),
        ) + u16_be_bytes(
            match port {
                Some(p) => p,
                None => 0u16,
            },
        ) + nul_terminated(address),
        MessageView::Helo { helo } => nul_terminated(helo),
        MessageView::Mail { sender, esmtp_args } => nul_terminated(sender) + match esmtp_args {
            Some(a) => a,
            None => Seq::empty(),
        },
        MessageView::Recipient { recipient, esmtp_args } => nul_terminated(recipient)
            + match esmtp_args {
            Some(a) => a,
            None => Seq::empty(),
        },
        MessageView::Header { name, value } => nul_terminated(name) + nul_terminated(value),
        MessageView::Body { body } => body,
        MessageView::Unknown { data } => nul_terminated(data),
        MessageView::Macro { code, macros } => seq![code] + macro_pairs_bytes(macros),
        MessageView::Empty { code } => Seq::empty(),
        MessageView::Replycode { rcode, rcode_text, xcode, xcode_text, message } => nul_terminated(
            rcode_text,
        ) + nul_terminated(xcode_text) + nul_terminated(message),
        MessageView::AddRecipient { recipient } => nul_terminated(recipient),
        MessageView::DeleteRecipient { recipient } => nul_terminated(recipient),
        MessageView::ReplaceBody { body } => body,
        MessageView::AddHeader { name, value } => nul_terminated(name) + nul_terminated(value),
        MessageView::InsertHeader { index, name, value } => u32_be_bytes(index) + nul_terminated(
            name,
        ) + nul_terminated(value),
        MessageView::ChangeHeader { index, name, value } => u32_be_bytes(index) + nul_terminated(
            name,
        ) + nul_terminated(value),
        MessageView::Quarantine { reason } => nul_terminated(reason),
    }
}

/// The name/value pairs of a macro message, each field NUL-terminated.
pub open spec fn macro_pairs_bytes(macros: Seq<(Seq<u8>, Seq<u8>)>) -> Seq<u8>
    decreases macros.len(),
{
    if macros.len() == 0 {
        Seq::empty()
    } else {
        nul_terminated(macros[0].0) + nul_terminated(macros[0].1) + macro_pairs_bytes(
            macros.skip(1),
        )
    }
}

/// The code of `m`.
pub open spec fn code_of(m: MessageView) -> u8 {
    match m {
        MessageView::OptNeg { .. } => CODE_OPTNEG,
        MessageView::Connect { .. } => CODE_CONNECT,
        MessageView::Helo { .. } => CODE_HELO,
        MessageView::Mail { .. } => CODE_MAIL,
        MessageView::Recipient { .. } => CODE_RECIPIENT,
        MessageView::Header { .. } => CODE_HEADER,
        MessageView::Body { .. } => CODE_BODY,
        MessageView::Unknown { .. } => CODE_UNKNOWN,
        MessageView::Macro { .. } => CODE_MACRO,
        MessageView::Empty { code } => code,
        MessageView::Replycode { .. } => CODE_REPLYCODE,
        MessageView::AddRecipient { .. } => CODE_ADD_RECIPIENT,
        MessageView::DeleteRecipient { .. } => CODE_DELETE_RECIPIENT,
        MessageView::ReplaceBody { .. } => CODE_REPLACE_BODY,
        MessageView::AddHeader { .. } => CODE_ADD_HEADER,
        MessageView::InsertHeader { .. } => CODE_INSERT_HEADER,
        MessageView::ChangeHeader { .. } => CODE_CHANGE_HEADER,
        MessageView::Quarantine { .. } => CODE_QUARANTINE,
    }
}

/// The payload bytes of `m`, counted.
pub open spec fn wire_len(m: MessageView) -> nat {
    payload_of(m).len()
}


// ---- parsing, one payload format at a time ----

/// A payload that must be empty.
pub open spec fn parse_empty(code: u8, s: Seq<u8>) -> Result<MessageView, ErrorKind> {
    if s.len() == 0 {
        Ok(MessageView::Empty { code })
    } else {
        Err(ErrorKind::InvalidData)
    }
}

/// A single NUL-terminated field, the NUL being the last byte.
pub open spec fn parse_helo(s: Seq<u8>) -> Result<MessageView, ErrorKind> {
    if s.len() == 0 || s.last() != 0 {
        Err(ErrorKind::InvalidData)
    } else {
        Ok(MessageView::Helo { helo: s.drop_last() })
    }
}

/// The ESMTP arguments that follow an address: absent where nothing follows.
pub open spec fn esmtp_args_of(rest: Seq<u8>) -> Option<Seq<u8>> {
    if rest.len() == 0 {
        None
    } else {
        Some(rest)
    }
}

pub open spec fn parse_mail(s: Seq<u8>) -> Result<MessageView, ErrorKind> {
    match split_delim(s, 0) {
        None => Err(ErrorKind::InvalidData),
        Some((sender, rest)) => Ok(MessageView::Mail { sender, esmtp_args: esmtp_args_of(rest) }),
    }
}

pub open spec fn parse_recipient(s: Seq<u8>) -> Result<MessageView, ErrorKind> {
    match split_delim(s, 0) {
        None => Err(ErrorKind::InvalidData),
        Some((recipient, rest)) => Ok(
            MessageView::Recipient { recipient, esmtp_args: esmtp_args_of(rest) },
        ),
    }
}

/// Two NUL-terminated fields.
pub open spec fn parse_header_fields(s: Seq<u8>) -> Result<(Seq<u8>, Seq<u8>), ErrorKind> {
    match split_delim(s, 0) {
        None => Err(ErrorKind::InvalidData),
        Some((name, rest)) => match split_delim(rest, 0) {
            None => Err(ErrorKind::InvalidData),
            Some((value, _)) => Ok((name, value)),
        },
    }
}

pub open spec fn parse_header(s: Seq<u8>) -> Result<MessageView, ErrorKind> {
    match parse_header_fields(s) {
        Ok((name, value)) => Ok(MessageView::Header { name, value }),
        Err(e) => Err(e),
    }
}

/// One NUL-delimited field, as the `Unknown` command holds it.
pub open spec fn parse_unknown(s: Seq<u8>) -> Result<MessageView, ErrorKind> {
    match split_delim(s, 0) {
        None => Err(ErrorKind::InvalidData),
        Some((data, _)) => Ok(MessageView::Unknown { data }),
    }
}

/// The address of a connect command: a trailing NUL is dropped.
pub open spec fn strip_trailing_nul(s: Seq<u8>) -> Seq<u8> {
    if s.len() > 0 && s.last() == 0 {
        s.drop_last()
    } else {
        s
    }
}

pub open spec fn is_inet(f: Family) -> bool {
    f == Family::Inet || f == Family::Inet6
}

pub open spec fn parse_connect(s: Seq<u8>) -> Result<MessageView, ErrorKind> {
    match split_delim(s, 0) {
        None => Err(ErrorKind::InvalidData),
        Some((hostname, r1)) => if r1.len() < 1 {
            Err(ErrorKind::NotEnoughData)
        } else {
            match family_of_byte(r1[0]) {
                None => Err(ErrorKind::InvalidData),
                Some(family) => {
                    let r2 = r1.skip(1);
                    if r2.len() < 2 {
                        Err(ErrorKind::NotEnoughData)
                    } else {
                        Ok(
                            MessageView::Connect {
                                hostname,
                                family,
                                port: if is_inet(family) {
                                    Some(be_u16(r2) as u16)
                                } else {
                                    None
                                },
                                address: strip_trailing_nul(r2.skip(2)),
                            },
                        )
                    }
                },
            }
        },
    }
}

/// Name/value pairs of a macro message until the bytes run out.
pub open spec fn parse_macro_pairs(s: Seq<u8>) -> Result<Seq<(Seq<u8>, Seq<u8>)>, ErrorKind>
    decreases s.len(),
{
    if s.len() == 0 {
        Ok(Seq::empty())
    } else {
        match split_delim(s, 0) {
            None => Err(ErrorKind::NotEnoughData),
            Some((name, r1)) => match split_delim(r1, 0) {
                None => Err(ErrorKind::NotEnoughData),
                Some((value, r2)) => match parse_macro_pairs(r2) {
                    Ok(rest) => Ok(seq![(name, value)] + rest),
                    Err(e) => Err(e),
                },
            },
        }
    }
}

pub open spec fn parse_macro(s: Seq<u8>) -> Result<MessageView, ErrorKind> {
    if s.len() == 0 {
        Err(ErrorKind::NotEnoughData)
    } else {
        match parse_macro_pairs(s.skip(1)) {
            Ok(macros) => Ok(MessageView::Macro { code: s[0], macros }),
            Err(e) => Err(e),
        }
    }
}

pub open spec fn parse_add_recipient(s: Seq<u8>) -> Result<MessageView, ErrorKind> {
    match split_delim(s, 0) {
        None => Err(ErrorKind::InvalidData),
        Some((recipient, _)) => Ok(MessageView::AddRecipient { recipient }),
    }
}

pub open spec fn parse_delete_recipient(s: Seq<u8>) -> Result<MessageView, ErrorKind> {
    match split_delim(s, 0) {
        None => Err(ErrorKind::InvalidData),
        Some((recipient, _)) => Ok(MessageView::DeleteRecipient { recipient }),
    }
}

pub open spec fn parse_add_header(s: Seq<u8>) -> Result<MessageView, ErrorKind> {
    match parse_header_fields(s) {
        Ok((name, value)) => Ok(MessageView::AddHeader { name, value }),
        Err(e) => Err(e),
    }
}

pub open spec fn parse_insert_header(s: Seq<u8>) -> Result<MessageView, ErrorKind> {
    if s.len() < 4 {
        Err(ErrorKind::NotEnoughData)
    } else {
        match parse_header_fields(s.skip(4)) {
            Ok((name, value)) => Ok(
                MessageView::InsertHeader { index: be_u32(s) as u32, name, value },
            ),
            Err(e) => Err(e),
        }
    }
}

pub open spec fn parse_change_header(s: Seq<u8>) -> Result<MessageView, ErrorKind> {
    if s.len() < 4 {
        Err(ErrorKind::NotEnoughData)
    } else {
        match parse_header_fields(s.skip(4)) {
            Ok((name, value)) => Ok(
                MessageView::ChangeHeader { index: be_u32(s) as u32, name, value },
            ),
            Err(e) => Err(e),
        }
    }
}

/// The stages of a negotiation that requests no macros.
pub open spec fn no_stages() -> Seq<Seq<Seq<u8>>> {
    Seq::new(10, |i: int| Seq::<Seq<u8>>::empty())
}

/// The macro-stages blob read into `stages`: each entry is a stage id below
/// ten, the stage's symbols joined by single spaces, and a NUL; the symbols
/// are appended to that stage.
pub open spec fn parse_stages_into(stages: Seq<Seq<Seq<u8>>>, s: Seq<u8>) -> Result<
    Seq<Seq<Seq<u8>>>,
    ErrorKind,
>
    decreases s.len(),
{
    if s.len() == 0 {
        Ok(stages)
    } else if s.len() < 4 {
        Err(ErrorKind::NotEnoughData)
    } else if be_u32(s) >= 10 {
        Err(ErrorKind::InvalidData)
    } else {
        match split_delim(s.skip(4), 0) {
            None => Err(ErrorKind::NotEnoughData),
            Some((joined, rest)) => parse_stages_into(
                stages.update(be_u32(s), stages[be_u32(s)] + split_fields(joined, 32)),
                rest,
            ),
        }
    }
}

/// Version, capabilities and protocol, then the macro-stages blob.
pub open spec fn parse_optneg(s: Seq<u8>) -> Result<MessageView, ErrorKind> {
    if s.len() < 12 {
        Err(ErrorKind::NotEnoughData)
    } else {
        match parse_stages_into(no_stages(), s.skip(12)) {
            Ok(stages) => Ok(
                MessageView::OptNeg {
                    version: be_u32(s) as u32,
                    capabilities: be_u32(s.skip(4)) as u32,
                    protocol: be_u32(s.skip(8)) as u32,
                    stages,
                },
            ),
            Err(e) => Err(e),
        }
    }
}

/// A message sent by the MTA, code first.
pub open spec fn parse_client(s: Seq<u8>) -> Result<MessageView, ErrorKind> {
    if s.len() == 0 {
        Err(ErrorKind::NotEnoughData)
    } else {
        parse_client_payload(s[0], s.skip(1))
    }
}

/// The payload `p` of a message of code `c` sent by the MTA.
pub open spec fn parse_client_payload(c: u8, p: Seq<u8>) -> Result<MessageView, ErrorKind> {
    if c == CODE_ABORT || c == CODE_QUIT || c == CODE_QUIT_NC || c == CODE_END_OF_HEADER || c
        == CODE_DATA || c == CODE_END_OF_BODY {
        parse_empty(c, p)
    } else if c == CODE_OPTNEG {
        parse_optneg(p)
    } else if c == CODE_MACRO {
        parse_macro(p)
    } else if c == CODE_UNKNOWN {
        parse_unknown(p)
    } else if c == CODE_CONNECT {
        parse_connect(p)
    } else if c == CODE_HELO {
        parse_helo(p)
    } else if c == CODE_MAIL {
        parse_mail(p)
    } else if c == CODE_RECIPIENT {
        parse_recipient(p)
    } else if c == CODE_HEADER {
        parse_header(p)
    } else if c == CODE_BODY {
        Ok(MessageView::Body { body: p })
    } else {
        Err(ErrorKind::InvalidData)
    }
}

/// A message sent by the filter, code first.
pub open spec fn parse_server(s: Seq<u8>) -> Result<MessageView, ErrorKind> {
    if s.len() == 0 {
        Err(ErrorKind::NotEnoughData)
    } else {
        parse_server_payload(s[0], s.skip(1))
    }
}

/// The payload `p` of a message of code `c` sent by the filter.
pub open spec fn parse_server_payload(c: u8, p: Seq<u8>) -> Result<MessageView, ErrorKind> {
    if c == CODE_ABORT || c == CODE_CONTINUE || c == CODE_DISCARD || c == CODE_REJECT || c
        == CODE_TEMPFAIL || c == CODE_SKIP {
        parse_empty(c, p)
    } else if c == CODE_OPTNEG {
        parse_optneg(p)
    } else if c == CODE_REPLYCODE {
        parse_replycode(p)
    } else if c == CODE_ADD_RECIPIENT {
        parse_add_recipient(p)
    } else if c == CODE_DELETE_RECIPIENT {
        parse_delete_recipient(p)
    } else if c == CODE_REPLACE_BODY {
        Ok(MessageView::ReplaceBody { body: p })
    } else if c == CODE_ADD_HEADER {
        parse_add_header(p)
    } else if c == CODE_INSERT_HEADER {
        parse_insert_header(p)
    } else if c == CODE_CHANGE_HEADER {
        parse_change_header(p)
    } else if c == CODE_QUARANTINE {
        Ok(MessageView::Quarantine { reason: p })
    } else {
        Err(ErrorKind::InvalidData)
    }
}

// ---- dotted reply codes ----

pub open spec fn is_digit(b: u8) -> bool {
    48 <= b <= 57
}

pub open spec fn all_digits(s: Seq<u8>) -> bool {
    forall|i: int| 0 <= i < s.len() ==> is_digit(#[trigger] s[i])
}

/// The value of a run of decimal digits.
pub open spec fn dec_value(s: Seq<u8>) -> nat
    decreases s.len(),
{
    if s.len() == 0 {
        0
    } else {
        dec_value(s.drop_last()) * 10 + (s.last() - 48) as nat
    }
}

/// A decimal `u16`: an optional `+`, then at least one digit, at most 65535.
pub open spec fn parse_dec_u16(s: Seq<u8>) -> Option<u16> {
    let d = if s.len() > 0 && s[0] == 43 {
        s.skip(1)
    } else {
        s
    };
    if d.len() > 0 && all_digits(d) && dec_value(d) <= 65535 {
        Some(dec_value(d) as u16)
    } else {
        None
    }
}

/// A dotted triple `a.b.c` of decimal `u16` values.
pub open spec fn parse_code_text(s: Seq<u8>) -> Option<Seq<u16>> {
    match split_delim(s, 46) {
        None => None,
        Some((a, r1)) => match split_delim(r1, 46) {
            None => None,
            Some((b, c)) => match (parse_dec_u16(a), parse_dec_u16(b), parse_dec_u16(c)) {
                (Some(x), Some(y), Some(z)) => Some(seq![x, y, z]),
                _ => None,
            },
        },
    }
}

pub open spec fn parse_replycode(s: Seq<u8>) -> Result<MessageView, ErrorKind> {
    match split_delim(s, 0) {
        None => Err(ErrorKind::NotEnoughData),
        Some((rcode_text, r1)) => match parse_code_text(rcode_text) {
            None => Err(ErrorKind::InvalidData),
            Some(rcode) => match split_delim(r1, 0) {
                None => Err(ErrorKind::NotEnoughData),
                Some((xcode_text, r2)) => match parse_code_text(xcode_text) {
                    None => Err(ErrorKind::InvalidData),
                    Some(xcode) => match split_delim(r2, 0) {
                        None => Err(ErrorKind::NotEnoughData),
                        Some((message, _)) => Ok(
                            MessageView::Replycode {
                                rcode,
                                rcode_text,
                                xcode,
                                xcode_text,
                                message,
                            },
                        ),
                    },
                },
            },
        },
    }
}

} // verus!
