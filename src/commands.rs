//! Commands: the messages that the MTA sends to the filter.
use bytes::BytesMut;
use vstd::prelude::*;

use crate::buffer::{
    buf_append, buf_byte, buf_from_slice, buf_len, buf_put_u16, buf_put_u8, buf_split_off,
    buf_split_to, buf_to_vec, bytes_of, capped, sat_add,
};
use crate::error::{invalid, not_enough, ErrorKind, ProtocolError};
use crate::message::{
    family_byte, family_of_byte, is_inet, nul_terminated, parse_connect, parse_empty,
    parse_header, parse_helo, parse_macro, parse_macro_pairs, parse_mail, parse_recipient,
    parse_header_fields, parse_unknown, payload_of, MessageView, CODE_BODY, CODE_CONNECT, CODE_DATA,
    CODE_END_OF_BODY, CODE_END_OF_HEADER, CODE_HEADER, CODE_HELO, CODE_MACRO, CODE_MAIL,
    CODE_RECIPIENT, CODE_UNKNOWN,
};
use crate::parsing::{delimited, safe_get_u8, split_delim, split_fields, split_fields_of};

verus! {

/// Appends `field` and a NUL.
pub fn write_field(buffer: &mut BytesMut, field: &BytesMut)
    requires
        bytes_of(*old(buffer)).len() + bytes_of(*field).len() + 1 <= isize::MAX,
    ensures
        bytes_of(*final(buffer)) == bytes_of(*old(buffer)) + nul_terminated(bytes_of(*field)),
{
    buf_append(buffer, field);
    buf_put_u8(buffer, 0);
    assert(bytes_of(*buffer) =~= bytes_of(*old(buffer)) + nul_terminated(bytes_of(*field)));
}

/// A marker for the connection family.
#[derive(Copy, Clone, PartialEq, Eq, Debug, Structural)]
pub enum Family {
    Unknown,
    Unix,
    Inet,
    Inet6,
}

impl Family {
    /// The byte that stands for this family on the wire.
    pub fn as_byte(self) -> (r: u8)
        ensures
            r == family_byte(self),
    {
        match self {
            Family::Unknown => 85,
            Family::Unix => 76,
            Family::Inet => 52,
            Family::Inet6 => 54,
        }
    }

    /// The family a byte stands for, if any.
    pub fn from_byte(b: u8) -> (r: Option<Family>)
        ensures
            r == family_of_byte(b),
    {
        if b == 85 {
            Some(Family::Unknown)
        } else if b == 76 {
            Some(Family::Unix)
        } else if b == 52 {
            Some(Family::Inet)
        } else if b == 54 {
            Some(Family::Inet6)
        } else {
            None
        }
    }
}

/// Connect information about the smtp client.
#[derive(Debug)]
pub struct Connect {
    pub hostname: BytesMut,
    /// The connection type connected to the milter client
    pub family: Family,
    /// On an IP connection, the port of the connection
    pub port: Option<u16>,
    pub address: BytesMut,
}

impl Connect {
    pub const CODE: u8 = CODE_CONNECT;

    pub open spec fn view(&self) -> MessageView {
        MessageView::Connect {
            hostname: bytes_of(self.hostname),
            family: self.family,
            port: self.port,
            address: bytes_of(self.address),
        }
    }

    /// Create a new connect package.
    pub fn new(hostname: &[u8], family: Family, port: Option<u16>, address: &[u8]) -> (r: Self)
        ensures
            r.view() == (MessageView::Connect {
                hostname: hostname@,
                family,
                port,
                address: address@,
            }),
    {
        Connect {
            hostname: buf_from_slice(hostname),
            family,
            port,
            address: buf_from_slice(address),
        }
    }

    /// The received hostname.
    pub fn hostname(&self) -> (r: Vec<u8>)
        ensures
            r@ == self.view()->Connect_hostname,
    {
        buf_to_vec(&self.hostname)
    }

    /// The received address: an IP address or a unix socket path.
    pub fn address(&self) -> (r: Vec<u8>)
        ensures
            r@ == self.view()->Connect_address,
    {
        buf_to_vec(&self.address)
    }

    pub fn parse(mut buffer: BytesMut) -> (r: Result<Self, ProtocolError>)
        ensures
            parse_connect(bytes_of(buffer)) == match r {
                Ok(m) => Ok(m.view()),
                Err(e) => Err(e.kind()),
            },
    {
        let ghost s = bytes_of(buffer);
        let hostname = match delimited(&mut buffer, 0) {
            Some(h) => h,
            None => {
                return Err(
                    invalid("Null-byte missing in connection package to delimit hostname", buffer),
                );
            },
        };
        let ghost r1 = bytes_of(buffer);
        if buf_len(&buffer) < 1 {
            return Err(not_enough("Connect", "Family missing", 1, 0, buffer));
        }
        let fbyte = buf_byte(&buffer, 0);
        let family = match Family::from_byte(fbyte) {
            Some(f) => f,
            None => {
                return Err(
                    invalid(
                        "Received unknown protocol family for connection info",
                        buf_from_slice(&[fbyte]),
                    ),
                );
            },
        };
        let _ = buf_split_to(&mut buffer, 1);
        let ghost r2 = bytes_of(buffer);
        let got = buf_len(&buffer);
        if got < 2 {
            return Err(not_enough("Connect", "Port missing", 2, got, buffer));
        }
        let hi = buf_byte(&buffer, 0);
        let lo = buf_byte(&buffer, 1);
        let raw_port: u16 = (hi as u16) * 256 + (lo as u16);
        let port = match family {
            Family::Inet | Family::Inet6 => Some(raw_port),
            _ => None,
        };
        let _ = buf_split_to(&mut buffer, 2);
        let n = buf_len(&buffer);
        if n > 0 && buf_byte(&buffer, n - 1) == 0 {
            let _ = buf_split_off(&mut buffer, n - 1);
        }
        assert(bytes_of(buffer) =~= crate::message::strip_trailing_nul(r2.skip(2)));
        Ok(Connect { hostname, family, port, address: buffer })
    }

    pub fn write(&self, buffer: &mut BytesMut)
        requires
            bytes_of(*old(buffer)).len() + payload_of(self.view()).len() <= isize::MAX,
        ensures
            bytes_of(*final(buffer)) == bytes_of(*old(buffer)) + payload_of(self.view()),
    {
        write_field(buffer, &self.hostname);
        buf_put_u8(buffer, self.family.as_byte());
        let p: u16 = match self.port {
            Some(p) => p,
            None => 0,
        };
        buf_put_u16(buffer, p);
        write_field(buffer, &self.address);
        assert(bytes_of(*buffer) =~= bytes_of(*old(buffer)) + payload_of(self.view()));
    }

    pub fn len(&self) -> (r: usize)
        ensures
            r == capped(payload_of(self.view()).len()),
    {
        let h = sat_add(buf_len(&self.hostname), 4);
        sat_add(h, sat_add(buf_len(&self.address), 1))
    }

    pub fn code(&self) -> (r: u8)
        ensures
            r == Self::CODE,
    {
        Self::CODE
    }
}

/// Helo information sent by the smtp client.
#[derive(Debug)]
pub struct Helo {
    pub buffer: BytesMut,
}

impl Helo {
    pub const CODE: u8 = CODE_HELO;

    pub open spec fn view(&self) -> MessageView {
        MessageView::Helo { helo: bytes_of(self.buffer) }
    }

    /// A helo with the given greeting.
    pub fn from_bytes(value: &[u8]) -> (r: Self)
        ensures
            r.view() == (MessageView::Helo { helo: value@ }),
    {
        Helo { buffer: buf_from_slice(value) }
    }

    /// The helo greeting sent by the client.
    pub fn helo(&self) -> (r: Vec<u8>)
        ensures
            r@ == self.view()->Helo_helo,
    {
        buf_to_vec(&self.buffer)
    }

    pub fn parse(mut buffer: BytesMut) -> (r: Result<Self, ProtocolError>)
        ensures
            parse_helo(bytes_of(buffer)) == match r {
                Ok(m) => Ok(m.view()),
                Err(e) => Err(e.kind()),
            },
    {
        let n = buf_len(&buffer);
        if n == 0 {
            return Err(
                invalid("Received empty helo package, not even null terminated", buffer),
            );
        }
        if buf_byte(&buffer, n - 1) != 0 {
            return Err(
                invalid("Received helo package with missing null byte termination", buffer),
            );
        }
        let _ = buf_split_off(&mut buffer, n - 1);
        Ok(Helo { buffer })
    }

    pub fn write(&self, buffer: &mut BytesMut)
        requires
            bytes_of(*old(buffer)).len() + payload_of(self.view()).len() <= isize::MAX,
        ensures
            bytes_of(*final(buffer)) == bytes_of(*old(buffer)) + payload_of(self.view()),
    {
        write_field(buffer, &self.buffer);
    }

    pub fn len(&self) -> (r: usize)
        ensures
            r == capped(payload_of(self.view()).len()),
    {
        sat_add(buf_len(&self.buffer), 1)
    }

    pub fn code(&self) -> (r: u8)
        ensures
            r == Self::CODE,
    {
        Self::CODE
    }
}

/// Information about a mail to be processed.
#[derive(Debug)]
pub struct Mail {
    pub sender: BytesMut,
    pub esmtp_args: Option<BytesMut>,
}

/// The view of optional ESMTP arguments.
pub open spec fn args_view(a: Option<BytesMut>) -> Option<Seq<u8>> {
    match a {
        Some(b) => Some(bytes_of(b)),
        None => None,
    }
}

impl Mail {
    pub const CODE: u8 = CODE_MAIL;

    pub open spec fn view(&self) -> MessageView {
        MessageView::Mail { sender: bytes_of(self.sender), esmtp_args: args_view(self.esmtp_args) }
    }

    /// A mail from the given sender, without ESMTP arguments.
    pub fn from_bytes(value: &[u8]) -> (r: Self)
        ensures
            r.view() == (MessageView::Mail { sender: value@, esmtp_args: None }),
    {
        Mail { sender: buf_from_slice(value), esmtp_args: None }
    }

    /// The sender of this email.
    pub fn sender(&self) -> (r: Vec<u8>)
        ensures
            r@ == self.view()->Mail_sender,
    {
        buf_to_vec(&self.sender)
    }

    /// The ESMTP arguments, cut at their NUL bytes; none where none were
    /// sent.
    pub fn esmtp_args(&self) -> (r: Vec<Vec<u8>>)
        ensures
            r@.map_values(|v: Vec<u8>| v@) == match self.view()->Mail_esmtp_args {
                Some(a) => split_fields(a, 0),
                None => Seq::<Seq<u8>>::empty(),
            },
    {
        match &self.esmtp_args {
            Some(b) => split_fields_of(b, 0),
            None => {
                let r: Vec<Vec<u8>> = Vec::new();
                assert(r@.map_values(|v: Vec<u8>| v@) =~= Seq::<Seq<u8>>::empty());
                r
            },
        }
    }

    pub fn parse(mut buffer: BytesMut) -> (r: Result<Self, ProtocolError>)
        ensures
            parse_mail(bytes_of(buffer)) == match r {
                Ok(m) => Ok(m.view()),
                Err(e) => Err(e.kind()),
            },
    {
        let sender = match delimited(&mut buffer, 0) {
            Some(s) => s,
            None => {
                return Err(
                    invalid("Null-byte missing in mail package to sender hostname", buffer),
                );
            },
        };
        let esmtp_args = if buf_len(&buffer) == 0 {
            None
        } else {
            Some(buffer)
        };
        Ok(Mail { sender, esmtp_args })
    }

    pub fn write(&self, buffer: &mut BytesMut)
        requires
            bytes_of(*old(buffer)).len() + payload_of(self.view()).len() <= isize::MAX,
        ensures
            bytes_of(*final(buffer)) == bytes_of(*old(buffer)) + payload_of(self.view()),
    {
        write_field(buffer, &self.sender);
        write_args(buffer, &self.esmtp_args);
        assert(bytes_of(*buffer) =~= bytes_of(*old(buffer)) + payload_of(self.view()));
    }

    pub fn len(&self) -> (r: usize)
        ensures
            r == capped(payload_of(self.view()).len()),
    {
        sat_add(sat_add(buf_len(&self.sender), 1), args_len(&self.esmtp_args))
    }

    pub fn code(&self) -> (r: u8)
        ensures
            r == Self::CODE,
    {
        Self::CODE
    }
}

/// The bytes of optional ESMTP arguments (none where absent).
pub open spec fn args_bytes(a: Option<BytesMut>) -> Seq<u8> {
    match a {
        Some(b) => bytes_of(b),
        None => Seq::empty(),
    }
}

/// Appends the ESMTP arguments, if any.
pub fn write_args(buffer: &mut BytesMut, args: &Option<BytesMut>)
    requires
        bytes_of(*old(buffer)).len() + args_bytes(*args).len() <= isize::MAX,
    ensures
        bytes_of(*final(buffer)) == bytes_of(*old(buffer)) + args_bytes(*args),
{
    match args {
        Some(b) => buf_append(buffer, b),
        None => {
            assert(bytes_of(*buffer) =~= bytes_of(*old(buffer)) + args_bytes(*args));
        },
    }
}

/// The number of bytes of the ESMTP arguments.
pub fn args_len(args: &Option<BytesMut>) -> (r: usize)
    ensures
        r == args_bytes(*args).len(),
{
    match args {
        Some(b) => buf_len(b),
        None => 0,
    }
}

/// An smtp recipient.
#[derive(Debug)]
pub struct Recipient {
    pub recipient: BytesMut,
    pub esmtp_args: Option<BytesMut>,
}

impl Recipient {
    pub const CODE: u8 = CODE_RECIPIENT;

    pub open spec fn view(&self) -> MessageView {
        MessageView::Recipient {
            recipient: bytes_of(self.recipient),
            esmtp_args: args_view(self.esmtp_args),
        }
    }

    /// A recipient without ESMTP arguments.
    pub fn from_bytes(value: &[u8]) -> (r: Self)
        ensures
            r.view() == (MessageView::Recipient { recipient: value@, esmtp_args: None }),
    {
        Recipient { recipient: buf_from_slice(value), esmtp_args: None }
    }

    /// The recipient as received.
    pub fn recipient(&self) -> (r: Vec<u8>)
        ensures
            r@ == self.view()->Recipient_recipient,
    {
        buf_to_vec(&self.recipient)
    }

    /// The ESMTP arguments, cut at their NUL bytes; none where none were
    /// sent.
    pub fn esmtp_args(&self) -> (r: Vec<Vec<u8>>)
        ensures
            r@.map_values(|v: Vec<u8>| v@) == match self.view()->Recipient_esmtp_args {
                Some(a) => split_fields(a, 0),
                None => Seq::<Seq<u8>>::empty(),
            },
    {
        match &self.esmtp_args {
            Some(b) => split_fields_of(b, 0),
            None => {
                let r: Vec<Vec<u8>> = Vec::new();
                assert(r@.map_values(|v: Vec<u8>| v@) =~= Seq::<Seq<u8>>::empty());
                r
            },
        }
    }

    pub fn parse(mut buffer: BytesMut) -> (r: Result<Self, ProtocolError>)
        ensures
            parse_recipient(bytes_of(buffer)) == match r {
                Ok(m) => Ok(m.view()),
                Err(e) => Err(e.kind()),
            },
    {
        let recipient = match delimited(&mut buffer, 0) {
            Some(s) => s,
            None => {
                return Err(
                    invalid(
                        "Received recipient package without recipient terminated by null byte in it",
                        buffer,
                    ),
                );
            },
        };
        let esmtp_args = if buf_len(&buffer) == 0 {
            None
        } else {
            Some(buffer)
        };
        Ok(Recipient { recipient, esmtp_args })
    }

    pub fn write(&self, buffer: &mut BytesMut)
        requires
            bytes_of(*old(buffer)).len() + payload_of(self.view()).len() <= isize::MAX,
        ensures
            bytes_of(*final(buffer)) == bytes_of(*old(buffer)) + payload_of(self.view()),
    {
        write_field(buffer, &self.recipient);
        write_args(buffer, &self.esmtp_args);
        assert(bytes_of(*buffer) =~= bytes_of(*old(buffer)) + payload_of(self.view()));
    }

    pub fn len(&self) -> (r: usize)
        ensures
            r == capped(payload_of(self.view()).len()),
    {
        sat_add(sat_add(buf_len(&self.recipient), 1), args_len(&self.esmtp_args))
    }

    pub fn code(&self) -> (r: u8)
        ensures
            r == Self::CODE,
    {
        Self::CODE
    }
}

/// An smtp header received.
#[derive(Debug)]
pub struct Header {
    pub name: BytesMut,
    pub value: BytesMut,
}

impl Header {
    pub const CODE: u8 = CODE_HEADER;

    /// The name and value held.
    pub open spec fn fields(&self) -> (Seq<u8>, Seq<u8>) {
        (bytes_of(self.name), bytes_of(self.value))
    }

    pub open spec fn view(&self) -> MessageView {
        MessageView::Header { name: self.fields().0, value: self.fields().1 }
    }

    /// The payload of a header: name and value, each NUL-terminated.
    pub open spec fn fields_bytes(&self) -> Seq<u8> {
        nul_terminated(self.fields().0) + nul_terminated(self.fields().1)
    }

    /// Create a header from some bytes.
    pub fn new(name: &[u8], value: &[u8]) -> (r: Self)
        ensures
            r.fields() == (name@, value@),
    {
        Header { name: buf_from_slice(name), value: buf_from_slice(value) }
    }

    /// The name of the header.
    pub fn name(&self) -> (r: Vec<u8>)
        ensures
            r@ == self.fields().0,
    {
        buf_to_vec(&self.name)
    }

    /// The value of the header.
    pub fn value(&self) -> (r: Vec<u8>)
        ensures
            r@ == self.fields().1,
    {
        buf_to_vec(&self.value)
    }

    pub fn parse(mut buffer: BytesMut) -> (r: Result<Self, ProtocolError>)
        ensures
            parse_header_fields(bytes_of(buffer)) == match r {
                Ok(m) => Ok(m.fields()),
                Err(e) => Err(e.kind()),
            },
            parse_header(bytes_of(buffer)) == match r {
                Ok(m) => Ok(m.view()),
                Err(e) => Err(e.kind()),
            },
    {
        let name = match delimited(&mut buffer, 0) {
            Some(s) => s,
            None => {
                return Err(
                    invalid(
                        "Received header package without name terminated by null byte in it",
                        buffer,
                    ),
                );
            },
        };
        let value = match delimited(&mut buffer, 0) {
            Some(s) => s,
            None => {
                return Err(
                    invalid(
                        "Received header package without value terminated by null byte in it",
                        buffer,
                    ),
                );
            },
        };
        Ok(Header { name, value })
    }

    pub fn write(&self, buffer: &mut BytesMut)
        requires
            bytes_of(*old(buffer)).len() + self.fields_bytes().len() <= isize::MAX,
        ensures
            bytes_of(*final(buffer)) == bytes_of(*old(buffer)) + self.fields_bytes(),
            bytes_of(*final(buffer)) == bytes_of(*old(buffer)) + payload_of(self.view()),
    {
        write_field(buffer, &self.name);
        write_field(buffer, &self.value);
        assert(bytes_of(*buffer) =~= bytes_of(*old(buffer)) + self.fields_bytes());
    }

    pub fn len(&self) -> (r: usize)
        ensures
            r == capped(self.fields_bytes().len()),
            r == capped(payload_of(self.view()).len()),
    {
        sat_add(sat_add(buf_len(&self.name), 1), sat_add(buf_len(&self.value), 1))
    }

    pub fn code(&self) -> (r: u8)
        ensures
            r == Self::CODE,
    {
        Self::CODE
    }
}

/// An email body part received by the milter.
#[derive(Debug)]
pub struct Body {
    pub body: BytesMut,
}

impl Body {
    pub const CODE: u8 = CODE_BODY;

    pub open spec fn view(&self) -> MessageView {
        MessageView::Body { body: bytes_of(self.body) }
    }

    /// A body part holding the given bytes.
    pub fn from_bytes(value: &[u8]) -> (r: Self)
        ensures
            r.view() == (MessageView::Body { body: value@ }),
    {
        Body { body: buf_from_slice(value) }
    }

    /// The body bytes.
    pub fn to_vec(&self) -> (r: Vec<u8>)
        ensures
            r@ == self.view()->Body_body,
    {
        buf_to_vec(&self.body)
    }

    /// Takes the whole payload.
    pub fn parse(buffer: BytesMut) -> (r: Result<Self, ProtocolError>)
        ensures
            r is Ok,
            r->Ok_0.view() == (MessageView::Body { body: bytes_of(buffer) }),
    {
        Ok(Body { body: buffer })
    }

    pub fn write(&self, buffer: &mut BytesMut)
        requires
            bytes_of(*old(buffer)).len() + payload_of(self.view()).len() <= isize::MAX,
        ensures
            bytes_of(*final(buffer)) == bytes_of(*old(buffer)) + payload_of(self.view()),
    {
        buf_append(buffer, &self.body);
    }

    pub fn len(&self) -> (r: usize)
        ensures
            r == capped(payload_of(self.view()).len()),
    {
        buf_len(&self.body)
    }

    pub fn code(&self) -> (r: u8)
        ensures
            r == Self::CODE,
    {
        Self::CODE
    }
}

/// An unknown SMTP command, which allows extending the SMTP protocol.
#[derive(Debug)]
pub struct Unknown {
    pub data: BytesMut,
}

impl Unknown {
    pub const CODE: u8 = CODE_UNKNOWN;

    pub open spec fn view(&self) -> MessageView {
        MessageView::Unknown { data: bytes_of(self.data) }
    }

    /// An unknown command holding the given bytes.
    pub fn from_bytes(value: &[u8]) -> (r: Self)
        ensures
            r.view() == (MessageView::Unknown { data: value@ }),
    {
        Unknown { data: buf_from_slice(value) }
    }

    /// The contained bytes.
    pub fn as_bytes(&self) -> (r: Vec<u8>)
        ensures
            r@ == self.view()->Unknown_data,
    {
        buf_to_vec(&self.data)
    }

    pub fn parse(mut buffer: BytesMut) -> (r: Result<Self, ProtocolError>)
        ensures
            parse_unknown(bytes_of(buffer)) == match r {
                Ok(m) => Ok(m.view()),
                Err(e) => Err(e.kind()),
            },
    {
        match delimited(&mut buffer, 0) {
            Some(data) => Ok(Unknown { data }),
            None => Err(invalid("Received unknown package terminating null byte", buffer)),
        }
    }

    pub fn write(&self, buffer: &mut BytesMut)
        requires
            bytes_of(*old(buffer)).len() + payload_of(self.view()).len() <= isize::MAX,
        ensures
            bytes_of(*final(buffer)) == bytes_of(*old(buffer)) + payload_of(self.view()),
    {
        write_field(buffer, &self.data);
    }

    pub fn len(&self) -> (r: usize)
        ensures
            r == capped(payload_of(self.view()).len()),
    {
        sat_add(buf_len(&self.data), 1)
    }

    pub fn code(&self) -> (r: u8)
        ensures
            r == Self::CODE,
    {
        Self::CODE
    }
}

/// The macros received for the stage identified by `code`.
#[derive(Debug)]
pub struct Macro {
    /// The code of the stage these macros belong to.
    pub code: u8,
    pub macros: Vec<(BytesMut, BytesMut)>,
}

/// The name/value pairs, as bytes.
pub open spec fn pairs_view(p: Seq<(BytesMut, BytesMut)>) -> Seq<(Seq<u8>, Seq<u8>)> {
    p.map_values(|x: (BytesMut, BytesMut)| (bytes_of(x.0), bytes_of(x.1)))
}

impl Macro {
    pub const CODE: u8 = CODE_MACRO;

    pub open spec fn view(&self) -> MessageView {
        MessageView::Macro { code: self.code, macros: pairs_view(self.macros@) }
    }

    /// The received macros as (name, value) pairs, in order.
    pub fn macros(&self) -> (r: Vec<(Vec<u8>, Vec<u8>)>)
        ensures
            r@.map_values(|x: (Vec<u8>, Vec<u8>)| (x.0@, x.1@)) == self.view()->Macro_macros,
    {
        let mut out: Vec<(Vec<u8>, Vec<u8>)> = Vec::new();
        let mut i: usize = 0;
        while i < self.macros.len()
            invariant
                i <= self.macros@.len(),
                out@.map_values(|x: (Vec<u8>, Vec<u8>)| (x.0@, x.1@)) == pairs_view(
                    self.macros@.take(i as int),
                ),
            decreases self.macros@.len() - i,
        {
            let pair = (buf_to_vec(&self.macros[i].0), buf_to_vec(&self.macros[i].1));
            let ghost prev = out@;
            out.push(pair);
            proof {
                assert(self.macros@.take(i + 1) =~= self.macros@.take(i as int).push(
                    self.macros@[i as int],
                ));
                assert(out@ =~= prev.push(pair));
                assert(out@.map_values(|x: (Vec<u8>, Vec<u8>)| (x.0@, x.1@)) =~= prev.map_values(
                    |x: (Vec<u8>, Vec<u8>)| (x.0@, x.1@),
                ).push((pair.0@, pair.1@)));
                assert(pairs_view(self.macros@.take(i + 1)) =~= pairs_view(
                    self.macros@.take(i as int),
                ).push((pair.0@, pair.1@)));
            }
            i = i + 1;
        }
        assert(self.macros@.take(i as int) =~= self.macros@);
        out
    }

    pub fn parse(payload: BytesMut) -> (r: Result<Self, ProtocolError>)
        ensures
            parse_macro(bytes_of(payload)) == match r {
                Ok(m) => Ok(m.view()),
                Err(e) => Err(e.kind()),
            },
    {
        let ghost s = bytes_of(payload);
        let mut buffer = payload;
        let code = match safe_get_u8(&mut buffer) {
            Some(c) => c,
            None => {
                return Err(not_enough("Macro", "Code missing", 1, 0, buffer));
            },
        };
        let mut macros: Vec<(BytesMut, BytesMut)> = Vec::new();
        proof {
            match parse_macro_pairs(bytes_of(buffer)) {
                Ok(rest) => {
                    assert(pairs_view(macros@) + rest =~= rest);
                },
                Err(e) => {},
            }
        }
        while buf_len(&buffer) != 0
            invariant
                s == bytes_of(payload),
                s.len() >= 1,
                code == s[0],
                parse_macro_pairs(s.skip(1)) == match parse_macro_pairs(bytes_of(buffer)) {
                    Ok(rest) => Ok(pairs_view(macros@) + rest),
                    Err(e) => Err(e),
                },
            decreases bytes_of(buffer).len(),
        {
            let ghost cur = bytes_of(buffer);
            let name = match delimited(&mut buffer, 0) {
                Some(n) => n,
                None => {
                    assert(parse_macro_pairs(cur) == Err::<Seq<(Seq<u8>, Seq<u8>)>, _>(
                        ErrorKind::NotEnoughData,
                    ));
                    return Err(
                        not_enough("Macro", "missing null byte delimiter after name", 1, 0, buffer),
                    );
                },
            };
            let value = match delimited(&mut buffer, 0) {
                Some(v) => v,
                None => {
                    assert(parse_macro_pairs(cur) == Err::<Seq<(Seq<u8>, Seq<u8>)>, _>(
                        ErrorKind::NotEnoughData,
                    ));
                    return Err(
                        not_enough("Macro", "missing null byte delimiter after value", 1, 0, buffer),
                    );
                },
            };
            let ghost old_macros = macros@;
            macros.push((name, value));
            proof {
                assert(pairs_view(macros@) =~= pairs_view(old_macros) + seq![
                    (bytes_of(name), bytes_of(value)),
                ]);
                match parse_macro_pairs(bytes_of(buffer)) {
                    Ok(rest) => {
                        assert(pairs_view(old_macros) + (seq![(bytes_of(name), bytes_of(value))]
                            + rest) =~= pairs_view(macros@) + rest);
                    },
                    Err(e) => {},
                }
            }
        }
        assert(pairs_view(macros@) + Seq::<(Seq<u8>, Seq<u8>)>::empty() =~= pairs_view(macros@));
        Ok(Macro { code, macros })
    }
}

/// SMTP Data command has been sent.
#[derive(Debug, Clone, Copy)]
pub struct Data;

impl Data {
    pub const CODE: u8 = CODE_DATA;

    pub open spec fn view(&self) -> MessageView {
        MessageView::Empty { code: Self::CODE }
    }

    /// Accepts an empty payload only.
    pub fn parse(buffer: BytesMut) -> (r: Result<Self, ProtocolError>)
        ensures
            parse_empty(Self::CODE, bytes_of(buffer)) == match r {
                Ok(m) => Ok(m.view()),
                Err(e) => Err(e.kind()),
            },
    {
        if buf_len(&buffer) != 0 {
            return Err(invalid("Received a payload where none belongs", buffer));
        }
        Ok(Data)
    }

    /// Writes nothing: the code alone carries the message.
    pub fn write(&self, buffer: &mut BytesMut)
        requires
            bytes_of(*old(buffer)).len() + payload_of(self.view()).len() <= isize::MAX,
        ensures
            bytes_of(*final(buffer)) == bytes_of(*old(buffer)) + payload_of(self.view()),
    {
        assert(bytes_of(*buffer) =~= bytes_of(*old(buffer)) + payload_of(self.view()));
    }

    pub fn len(&self) -> (r: usize)
        ensures
            r == capped(payload_of(self.view()).len()),
    {
        0
    }

    pub fn code(&self) -> (r: u8)
        ensures
            r == Self::CODE,
    {
        Self::CODE
    }
}

/// After all headers have been sent, end of header is sent.
#[derive(Debug, Clone, Copy)]
pub struct EndOfHeader;

impl EndOfHeader {
    pub const CODE: u8 = CODE_END_OF_HEADER;

    pub open spec fn view(&self) -> MessageView {
        MessageView::Empty { code: Self::CODE }
    }

    /// Accepts an empty payload only.
    pub fn parse(buffer: BytesMut) -> (r: Result<Self, ProtocolError>)
        ensures
            parse_empty(Self::CODE, bytes_of(buffer)) == match r {
                Ok(m) => Ok(m.view()),
                Err(e) => Err(e.kind()),
            },
    {
        if buf_len(&buffer) != 0 {
            return Err(invalid("Received a payload where none belongs", buffer));
        }
        Ok(EndOfHeader)
    }

    /// Writes nothing: the code alone carries the message.
    pub fn write(&self, buffer: &mut BytesMut)
        requires
            bytes_of(*old(buffer)).len() + payload_of(self.view()).len() <= isize::MAX,
        ensures
            bytes_of(*final(buffer)) == bytes_of(*old(buffer)) + payload_of(self.view()),
    {
        assert(bytes_of(*buffer) =~= bytes_of(*old(buffer)) + payload_of(self.view()));
    }

    pub fn len(&self) -> (r: usize)
        ensures
            r == capped(payload_of(self.view()).len()),
    {
        0
    }

    pub fn code(&self) -> (r: u8)
        ensures
            r == Self::CODE,
    {
        Self::CODE
    }
}

/// No more body parts will be received after this.
#[derive(Debug, Clone, Copy)]
pub struct EndOfBody;

impl EndOfBody {
    pub const CODE: u8 = CODE_END_OF_BODY;

    pub open spec fn view(&self) -> MessageView {
        MessageView::Empty { code: Self::CODE }
    }

    /// Accepts an empty payload only.
    pub fn parse(buffer: BytesMut) -> (r: Result<Self, ProtocolError>)
        ensures
            parse_empty(Self::CODE, bytes_of(buffer)) == match r {
                Ok(m) => Ok(m.view()),
                Err(e) => Err(e.kind()),
            },
    {
        if buf_len(&buffer) != 0 {
            return Err(invalid("Received a payload where none belongs", buffer));
        }
        Ok(EndOfBody)
    }

    /// Writes nothing: the code alone carries the message.
    pub fn write(&self, buffer: &mut BytesMut)
        requires
            bytes_of(*old(buffer)).len() + payload_of(self.view()).len() <= isize::MAX,
        ensures
            bytes_of(*final(buffer)) == bytes_of(*old(buffer)) + payload_of(self.view()),
    {
        assert(bytes_of(*buffer) =~= bytes_of(*old(buffer)) + payload_of(self.view()));
    }

    pub fn len(&self) -> (r: usize)
        ensures
            r == capped(payload_of(self.view()).len()),
    {
        0
    }

    pub fn code(&self) -> (r: u8)
        ensures
            r == Self::CODE,
    {
        Self::CODE
    }
}

/// The SMTP-derived commands that the MTA sends in the order of a session.
#[derive(Debug)]
pub enum Command {
    Connect(Connect),
    Helo(Helo),
    Mail(Mail),
    Recipient(Recipient),
    Header(Header),
    EndOfHeader(EndOfHeader),
    Data(Data),
    Body(Body),
    EndOfBody(EndOfBody),
    Unknown(Unknown),
}

impl Command {
    pub open spec fn view(&self) -> MessageView {
        match self {
            Command::Connect(c) => c.view(),
            Command::Helo(c) => c.view(),
            Command::Mail(c) => c.view(),
            Command::Recipient(c) => c.view(),
            Command::Header(c) => c.view(),
            Command::EndOfHeader(c) => c.view(),
            Command::Data(c) => c.view(),
            Command::Body(c) => c.view(),
            Command::EndOfBody(c) => c.view(),
            Command::Unknown(c) => c.view(),
        }
    }

    pub fn write(&self, buffer: &mut BytesMut)
        requires
            bytes_of(*old(buffer)).len() + payload_of(self.view()).len() <= isize::MAX,
        ensures
            bytes_of(*final(buffer)) == bytes_of(*old(buffer)) + payload_of(self.view()),
    {
        match self {
            Command::Connect(c) => c.write(buffer),
            Command::Helo(c) => c.write(buffer),
            Command::Mail(c) => c.write(buffer),
            Command::Recipient(c) => c.write(buffer),
            Command::Header(c) => c.write(buffer),
            Command::EndOfHeader(c) => c.write(buffer),
            Command::Data(c) => c.write(buffer),
            Command::Body(c) => c.write(buffer),
            Command::EndOfBody(c) => c.write(buffer),
            Command::Unknown(c) => c.write(buffer),
        }
    }

    pub fn len(&self) -> (r: usize)
        ensures
            r == capped(payload_of(self.view()).len()),
    {
        match self {
            Command::Connect(c) => c.len(),
            Command::Helo(c) => c.len(),
            Command::Mail(c) => c.len(),
            Command::Recipient(c) => c.len(),
            Command::Header(c) => c.len(),
            Command::EndOfHeader(c) => c.len(),
            Command::Data(c) => c.len(),
            Command::Body(c) => c.len(),
            Command::EndOfBody(c) => c.len(),
            Command::Unknown(c) => c.len(),
        }
    }

    pub fn code(&self) -> (r: u8)
        ensures
            r == crate::message::code_of(self.view()),
    {
        match self {
            Command::Connect(c) => c.code(),
            Command::Helo(c) => c.code(),
            Command::Mail(c) => c.code(),
            Command::Recipient(c) => c.code(),
            Command::Header(c) => c.code(),
            Command::EndOfHeader(c) => c.code(),
            Command::Data(c) => c.code(),
            Command::Body(c) => c.code(),
            Command::EndOfBody(c) => c.code(),
            Command::Unknown(c) => c.code(),
        }
    }
}

} // verus!
