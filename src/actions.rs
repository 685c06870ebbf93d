//! Actions: the control-flow answers to commands.
use bytes::BytesMut;
use vstd::prelude::*;

use crate::buffer::{buf_from_slice, buf_len, buf_to_vec, bytes_of, capped, sat_add};
use crate::commands::write_field;
use crate::error::{invalid, invalid_with, not_enough, ProtocolError};
use crate::message::{
    all_digits, dec_value, is_digit, nul_terminated, parse_code_text, parse_dec_u16,
    parse_empty, parse_replycode, payload_of, MessageView, CODE_ABORT, CODE_CONTINUE,
    CODE_DISCARD, CODE_QUIT, CODE_QUIT_NC, CODE_REJECT, CODE_REPLYCODE, CODE_SKIP,
    CODE_TEMPFAIL,
};
use crate::parsing::{delimited, free_of, lemma_prefix_len, lemma_split_delim_concat, split_delim};

verus! {

/// The decimal digits of `n`, most significant first.
pub open spec fn dec_digits(n: nat) -> Seq<u8>
    decreases n,
{
    if n < 10 {
        seq![(48 + n) as u8]
    } else {
        dec_digits(n / 10).push((48 + n % 10) as u8)
    }
}

/// The dotted text of a three-part code.
pub open spec fn code_text(c: Seq<u16>) -> Seq<u8> {
    dec_digits(c[0] as nat).push(46) + dec_digits(c[1] as nat).push(46) + dec_digits(
        c[2] as nat,
    )
}

pub proof fn lemma_dec_digits(n: nat)
    ensures
        dec_digits(n).len() > 0,
        all_digits(dec_digits(n)),
        dec_value(dec_digits(n)) == n,
    decreases n,
{
    if n < 10 {
        let d = dec_digits(n);
        assert(d.drop_last() =~= Seq::<u8>::empty());
        assert(dec_value(d) == dec_value(d.drop_last()) * 10 + (d.last() - 48) as nat);
    } else {
        lemma_dec_digits(n / 10);
        let d = dec_digits(n);
        assert(d.drop_last() =~= dec_digits(n / 10));
        assert((n / 10) * 10 + n % 10 == n) by (nonlinear_arith);
        assert(d.last() == (48 + n % 10) as u8);
        assert(dec_value(d) == dec_value(d.drop_last()) * 10 + (d.last() - 48) as nat);
        assert forall|i: int| 0 <= i < d.len() implies is_digit(#[trigger] d[i]) by {
            if i < d.len() - 1 {
                assert(d[i] == dec_digits(n / 10)[i]);
            }
        }
    }
}

pub proof fn lemma_parse_dec_digits(n: u16)
    ensures
        parse_dec_u16(dec_digits(n as nat)) == Some(n),
        free_of(dec_digits(n as nat), 46),
        free_of(dec_digits(n as nat), 0),
{
    lemma_dec_digits(n as nat);
    let d = dec_digits(n as nat);
    assert(is_digit(d[0]));
}

/// A dotted code made of numbers parses back to them.
pub proof fn lemma_code_text(c: Seq<u16>)
    requires
        c.len() == 3,
    ensures
        parse_code_text(code_text(c)) == Some(c),
        free_of(code_text(c), 0),
{
    let a = dec_digits(c[0] as nat);
    let b = dec_digits(c[1] as nat);
    let z = dec_digits(c[2] as nat);
    lemma_parse_dec_digits(c[0]);
    lemma_parse_dec_digits(c[1]);
    lemma_parse_dec_digits(c[2]);
    assert(code_text(c) =~= a.push(46) + (b.push(46) + z));
    lemma_split_delim_concat(a, 46, b.push(46) + z);
    lemma_split_delim_concat(b, 46, z);
    assert(seq![c[0], c[1], c[2]] =~= c);
    let t = code_text(c);
    assert forall|i: int| 0 <= i < t.len() implies t[i] != 0 by {
        if i < a.len() {
            assert(t[i] == a[i]);
        } else if i == a.len() {
        } else if i < a.len() + 1 + b.len() {
            assert(t[i] == b[i - a.len() - 1]);
        } else if i == a.len() + 1 + b.len() {
        } else {
            assert(t[i] == z[i - a.len() - 2 - b.len()]);
        }
    }
}

/// Appends the decimal digits of `n`.
fn push_decimal(out: &mut Vec<u8>, n: u16)
    ensures
        final(out)@ == old(out)@ + dec_digits(n as nat),
    decreases n,
{
    if n >= 10 {
        push_decimal(out, n / 10);
    }
    out.push(48 + (n % 10) as u8);
    assert(out@ =~= old(out)@ + dec_digits(n as nat));
}

/// The leading digits of an all-digit run are worth no more than the run.
pub proof fn lemma_dec_value_prefix(d: Seq<u8>, k: int)
    requires
        0 <= k <= d.len(),
        all_digits(d),
    ensures
        dec_value(d.take(k)) <= dec_value(d),
    decreases d.len(),
{
    if k < d.len() {
        assert(all_digits(d.drop_last()));
        lemma_dec_value_prefix(d.drop_last(), k);
        assert(d.drop_last().take(k) =~= d.take(k));
    } else {
        assert(d.take(k) =~= d);
    }
}

/// The decimal `u16` written in `v[lo..hi]`.
fn parse_u16_text(v: &Vec<u8>, lo: usize, hi: usize) -> (r: Option<u16>)
    requires
        lo <= hi <= v@.len(),
    ensures
        r == parse_dec_u16(v@.subrange(lo as int, hi as int)),
{
    let ghost s = v@.subrange(lo as int, hi as int);
    let mut start = lo;
    if lo < hi && v[lo] == 43 {
        start = lo + 1;
    }
    let ghost d = v@.subrange(start as int, hi as int);
    assert(d =~= if s.len() > 0 && s[0] == 43 {
        s.skip(1)
    } else {
        s
    });
    if start == hi {
        return None;
    }
    let mut val: u32 = 0;
    let mut i = start;
    while i < hi
        invariant
            start <= i <= hi,
            hi <= v@.len(),
            d == v@.subrange(start as int, hi as int),
            s == v@.subrange(lo as int, hi as int),
            d == (if s.len() > 0 && s[0] == 43 {
                s.skip(1)
            } else {
                s
            }),
            all_digits(d.take(i - start)),
            val == dec_value(d.take(i - start)),
            val <= 65535,
        decreases hi - i,
    {
        let b = v[i];
        if b < 48 || b > 57 {
            assert(!is_digit(d[i - start]));
            assert(!all_digits(d));
            return None;
        }
        proof {
            let p = d.take(i - start + 1);
            assert(p.drop_last() =~= d.take(i - start));
            assert(p.last() == b);
        }
        val = val * 10 + (b - 48) as u32;
        i = i + 1;
        proof {
            assert forall|j: int| 0 <= j < d.take(i - start).len() implies is_digit(
                #[trigger] d.take(i - start)[j],
            ) by {
                if j < i - start - 1 {
                    assert(d.take(i - start)[j] == d.take(i - start - 1)[j]);
                }
            }
        }
        if val > 65535 {
            proof {
                if all_digits(d) {
                    lemma_dec_value_prefix(d, i - start);
                }
                assert(parse_dec_u16(s) is None);
            }
            return None;
        }
    }
    assert(d.take(i - start) =~= d);
    Some(val as u16)
}

/// A reply code: three numbers, together with the text they were read from.
#[derive(Debug)]
pub struct Code {
    pub code: [u16; 3],
    pub bytes: BytesMut,
}

impl Code {
    /// The numbers of the code.
    pub open spec fn numbers(&self) -> Seq<u16> {
        self.code@
    }

    /// The text of the code as it goes on the wire.
    pub open spec fn text(&self) -> Seq<u8> {
        bytes_of(self.bytes)
    }

    /// The text reads as the numbers.
    pub open spec fn wf(&self) -> bool {
        parse_code_text(self.text()) == Some(self.numbers())
    }

    /// The code with the given numbers, written as `a.b.c` in decimal.
    pub fn new(code: [u16; 3]) -> (r: Self)
        ensures
            r.numbers() == code@,
            r.text() == code_text(code@),
            r.wf(),
    {
        let mut v: Vec<u8> = Vec::new();
        push_decimal(&mut v, code[0]);
        v.push(46);
        push_decimal(&mut v, code[1]);
        v.push(46);
        push_decimal(&mut v, code[2]);
        assert(v@ =~= code_text(code@));
        proof {
            lemma_code_text(code@);
        }
        Code { code, bytes: buf_from_slice(v.as_slice()) }
    }

    /// Reads a dotted triple of decimal `u16` values.
    pub fn parse(buffer: BytesMut) -> (r: Result<Self, ProtocolError>)
        ensures
            match r {
                Ok(c) => parse_code_text(bytes_of(buffer)) == Some(c.numbers()) && c.text()
                    == bytes_of(buffer),
                Err(e) => parse_code_text(bytes_of(buffer)) is None && e.kind()
                    == crate::error::ErrorKind::InvalidData && invalid_with(e, bytes_of(buffer)),
            },
    {
        let v = buf_to_vec(&buffer);
        let n = v.len();
        let ghost s = v@;
        // the first dot
        let mut i: usize = 0;
        while i < n && v[i] != 46
            invariant
                i <= n,
                n == s.len(),
                v@ == s,
                forall|j: int| 0 <= j < i ==> s[j] != 46,
            decreases n - i,
        {
            i = i + 1;
        }
        proof {
            lemma_prefix_len(s, 46, i as int);
        }
        if i == n {
            return Err(invalid("missing '.' delimiter in code", buffer));
        }
        let ghost r1 = s.skip(i + 1);
        let mut k: usize = i + 1;
        while k < n && v[k] != 46
            invariant
                i + 1 <= k <= n,
                n == s.len(),
                v@ == s,
                r1 == s.skip(i + 1),
                forall|j: int| i + 1 <= j < k ==> s[j] != 46,
            decreases n - k,
        {
            k = k + 1;
        }
        proof {
            lemma_prefix_len(r1, 46, k - i - 1);
        }
        if k == n {
            return Err(invalid("missing '.' delimiter in code", buffer));
        }
        assert(s.take(i as int) =~= s.subrange(0, i as int));
        assert(r1.take(k - i - 1) =~= s.subrange(i + 1, k as int));
        assert(r1.skip(k - i - 1 + 1) =~= s.subrange(k + 1, n as int));
        let a = parse_u16_text(&v, 0, i);
        let b = parse_u16_text(&v, i + 1, k);
        let c = parse_u16_text(&v, k + 1, n);
        match (a, b, c) {
            (Some(x), Some(y), Some(z)) => {
                let code = [x, y, z];
                assert(code@ =~= seq![x, y, z]);
                Ok(Code { code, bytes: buffer })
            },
            _ => Err(invalid("invalid u16 in code", buffer)),
        }
    }

    /// The status code.
    pub fn code(&self) -> (r: [u16; 3])
        ensures
            r@ == self.numbers(),
    {
        self.code
    }

    /// The text of the code.
    pub fn as_bytes(&self) -> (r: Vec<u8>)
        ensures
            r@ == self.text(),
    {
        buf_to_vec(&self.bytes)
    }

    /// The number of bytes of the text.
    pub fn len(&self) -> (r: usize)
        ensures
            r == self.text().len(),
    {
        buf_len(&self.bytes)
    }

    /// Appends the text and a NUL.
    pub fn write(&self, buffer: &mut BytesMut)
        requires
            bytes_of(*old(buffer)).len() + nul_terminated(self.text()).len() <= isize::MAX,
        ensures
            bytes_of(*final(buffer)) == bytes_of(*old(buffer)) + nul_terminated(self.text()),
    {
        write_field(buffer, &self.bytes);
    }
}

/// Return this status code to the smtp client.
#[derive(Debug)]
pub struct Replycode {
    pub rcode: Code,
    pub xcode: Code,
    pub message: BytesMut,
}

impl Replycode {
    pub const CODE: u8 = CODE_REPLYCODE;

    pub open spec fn view(&self) -> MessageView {
        MessageView::Replycode {
            rcode: self.rcode.numbers(),
            rcode_text: self.rcode.text(),
            xcode: self.xcode.numbers(),
            xcode_text: self.xcode.text(),
            message: bytes_of(self.message),
        }
    }

    /// Both codes read as their numbers.
    pub open spec fn wf(&self) -> bool {
        self.rcode.wf() && self.xcode.wf()
    }

    /// A reply with the given codes and message.
    pub fn new(rcode: [u16; 3], xcode: [u16; 3], message: &[u8]) -> (r: Self)
        ensures
            r.view() == (MessageView::Replycode {
                rcode: rcode@,
                rcode_text: code_text(rcode@),
                xcode: xcode@,
                xcode_text: code_text(xcode@),
                message: message@,
            }),
            r.wf(),
    {
        Replycode { rcode: Code::new(rcode), xcode: Code::new(xcode), message: buf_from_slice(message) }
    }

    /// The message associated with this reply code.
    pub fn message(&self) -> (r: Vec<u8>)
        ensures
            r@ == self.view()->Replycode_message,
    {
        buf_to_vec(&self.message)
    }

    /// The smtp return code.
    pub fn rcode(&self) -> (r: &Code)
        ensures
            r.numbers() == self.view()->Replycode_rcode,
            r.text() == self.view()->Replycode_rcode_text,
    {
        &self.rcode
    }

    /// The smtp enhanced return code.
    pub fn xcode(&self) -> (r: &Code)
        ensures
            r.numbers() == self.view()->Replycode_xcode,
            r.text() == self.view()->Replycode_xcode_text,
    {
        &self.xcode
    }

    pub fn parse(mut buffer: BytesMut) -> (r: Result<Self, ProtocolError>)
        ensures
            parse_replycode(bytes_of(buffer)) == match r {
                Ok(m) => Ok(m.view()),
                Err(e) => Err(e.kind()),
            },
            r is Ok ==> r->Ok_0.wf(),
    {
        let rtext = match delimited(&mut buffer, 0) {
            Some(t) => t,
            None => {
                return Err(
                    not_enough("Replycode", "Missing nullbyte delimiter after rcode", 1, 0, buffer),
                );
            },
        };
        let rcode = Code::parse(rtext)?;
        let xtext = match delimited(&mut buffer, 0) {
            Some(t) => t,
            None => {
                return Err(
                    not_enough("Replycode", "Missing nullbyte delimiter after xcode", 1, 0, buffer),
                );
            },
        };
        let xcode = Code::parse(xtext)?;
        let message = match delimited(&mut buffer, 0) {
            Some(t) => t,
            None => {
                return Err(
                    not_enough(
                        "Replycode",
                        "Missing nullbyte delimiter after message",
                        1,
                        0,
                        buffer,
                    ),
                );
            },
        };
        Ok(Replycode { rcode, xcode, message })
    }

    pub fn write(&self, buffer: &mut BytesMut)
        requires
            bytes_of(*old(buffer)).len() + payload_of(self.view()).len() <= isize::MAX,
        ensures
            bytes_of(*final(buffer)) == bytes_of(*old(buffer)) + payload_of(self.view()),
    {
        self.rcode.write(buffer);
        self.xcode.write(buffer);
        write_field(buffer, &self.message);
        assert(bytes_of(*buffer) =~= bytes_of(*old(buffer)) + payload_of(self.view()));
    }

    pub fn len(&self) -> (r: usize)
        ensures
            r == capped(payload_of(self.view()).len()),
    {
        let a = sat_add(self.rcode.len(), 1);
        let b = sat_add(self.xcode.len(), 1);
        let c = sat_add(buf_len(&self.message), 1);
        sat_add(sat_add(a, b), c)
    }

    pub fn code(&self) -> (r: u8)
        ensures
            r == Self::CODE,
    {
        Self::CODE
    }
}

/// Abort processing of the current mail, or finish at the end of one.
#[derive(Debug, Clone, Copy)]
pub struct Abort;

impl Abort {
    pub const CODE: u8 = CODE_ABORT;

    pub open spec fn view(&self) -> MessageView {
        MessageView::Empty { code: Self::CODE }
    }

    /// Accepts an empty payload only.
    pub fn parse(buffer: BytesMut) -> (r: Result<Self, ProtocolError>)
        ensures
            parse_empty(Self::CODE, bytes_of(buffer)) == match r {
                Ok(m) => Ok(m.view()),
                Err(e) => Err(e.kind()),
            },
    {
        if buf_len(&buffer) != 0 {
            return Err(invalid("Received a payload where none belongs", buffer));
        }
        Ok(Abort)
    }

    /// Writes nothing: the code alone carries the message.
    pub fn write(&self, buffer: &mut BytesMut)
        requires
            bytes_of(*old(buffer)).len() + payload_of(self.view()).len() <= isize::MAX,
        ensures
            bytes_of(*final(buffer)) == bytes_of(*old(buffer)) + payload_of(self.view()),
    {
        assert(bytes_of(*buffer) =~= bytes_of(*old(buffer)) + payload_of(self.view()));
    }

    pub fn len(&self) -> (r: usize)
        ensures
            r == capped(payload_of(self.view()).len()),
    {
        0
    }

    pub fn code(&self) -> (r: u8)
        ensures
            r == Self::CODE,
    {
        Self::CODE
    }
}

/// Continue with the next step of the protocol.
#[derive(Debug, Clone, Copy)]
pub struct Continue;

impl Continue {
    pub const CODE: u8 = CODE_CONTINUE;

    pub open spec fn view(&self) -> MessageView {
        MessageView::Empty { code: Self::CODE }
    }

    /// Accepts an empty payload only.
    pub fn parse(buffer: BytesMut) -> (r: Result<Self, ProtocolError>)
        ensures
            parse_empty(Self::CODE, bytes_of(buffer)) == match r {
                Ok(m) => Ok(m.view()),
                Err(e) => Err(e.kind()),
            },
    {
        if buf_len(&buffer) != 0 {
            return Err(invalid("Received a payload where none belongs", buffer));
        }
        Ok(Continue)
    }

    /// Writes nothing: the code alone carries the message.
    pub fn write(&self, buffer: &mut BytesMut)
        requires
            bytes_of(*old(buffer)).len() + payload_of(self.view()).len() <= isize::MAX,
        ensures
            bytes_of(*final(buffer)) == bytes_of(*old(buffer)) + payload_of(self.view()),
    {
        assert(bytes_of(*buffer) =~= bytes_of(*old(buffer)) + payload_of(self.view()));
    }

    pub fn len(&self) -> (r: usize)
        ensures
            r == capped(payload_of(self.view()).len()),
    {
        0
    }

    pub fn code(&self) -> (r: u8)
        ensures
            r == Self::CODE,
    {
        Self::CODE
    }
}

/// Quit this connection gracefully.
#[derive(Debug, Clone, Copy)]
pub struct Quit;

impl Quit {
    pub const CODE: u8 = CODE_QUIT;

    pub open spec fn view(&self) -> MessageView {
        MessageView::Empty { code: Self::CODE }
    }

    /// Accepts an empty payload only.
    pub fn parse(buffer: BytesMut) -> (r: Result<Self, ProtocolError>)
        ensures
            parse_empty(Self::CODE, bytes_of(buffer)) == match r {
                Ok(m) => Ok(m.view()),
                Err(e) => Err(e.kind()),
            },
    {
        if buf_len(&buffer) != 0 {
            return Err(invalid("Received a payload where none belongs", buffer));
        }
        Ok(Quit)
    }

    /// Writes nothing: the code alone carries the message.
    pub fn write(&self, buffer: &mut BytesMut)
        requires
            bytes_of(*old(buffer)).len() + payload_of(self.view()).len() <= isize::MAX,
        ensures
            bytes_of(*final(buffer)) == bytes_of(*old(buffer)) + payload_of(self.view()),
    {
        assert(bytes_of(*buffer) =~= bytes_of(*old(buffer)) + payload_of(self.view()));
    }

    pub fn len(&self) -> (r: usize)
        ensures
            r == capped(payload_of(self.view()).len()),
    {
        0
    }

    pub fn code(&self) -> (r: u8)
        ensures
            r == Self::CODE,
    {
        Self::CODE
    }
}

/// End this mail, but keep the connection for the next one.
#[derive(Debug, Clone, Copy)]
pub struct QuitNc;

impl QuitNc {
    pub const CODE: u8 = CODE_QUIT_NC;

    pub open spec fn view(&self) -> MessageView {
        MessageView::Empty { code: Self::CODE }
    }

    /// Accepts an empty payload only.
    pub fn parse(buffer: BytesMut) -> (r: Result<Self, ProtocolError>)
        ensures
            parse_empty(Self::CODE, bytes_of(buffer)) == match r {
                Ok(m) => Ok(m.view()),
                Err(e) => Err(e.kind()),
            },
    {
        if buf_len(&buffer) != 0 {
            return Err(invalid("Received a payload where none belongs", buffer));
        }
        Ok(QuitNc)
    }

    /// Writes nothing: the code alone carries the message.
    pub fn write(&self, buffer: &mut BytesMut)
        requires
            bytes_of(*old(buffer)).len() + payload_of(self.view()).len() <= isize::MAX,
        ensures
            bytes_of(*final(buffer)) == bytes_of(*old(buffer)) + payload_of(self.view()),
    {
        assert(bytes_of(*buffer) =~= bytes_of(*old(buffer)) + payload_of(self.view()));
    }

    pub fn len(&self) -> (r: usize)
        ensures
            r == capped(payload_of(self.view()).len()),
    {
        0
    }

    pub fn code(&self) -> (r: u8)
        ensures
            r == Self::CODE,
    {
        Self::CODE
    }
}

/// (Silently) discard this mail without forwarding it.
#[derive(Debug, Clone, Copy)]
pub struct Discard;

impl Discard {
    pub const CODE: u8 = CODE_DISCARD;

    pub open spec fn view(&self) -> MessageView {
        MessageView::Empty { code: Self::CODE }
    }

    /// Accepts an empty payload only.
    pub fn parse(buffer: BytesMut) -> (r: Result<Self, ProtocolError>)
        ensures
            parse_empty(Self::CODE, bytes_of(buffer)) == match r {
                Ok(m) => Ok(m.view()),
                Err(e) => Err(e.kind()),
            },
    {
        if buf_len(&buffer) != 0 {
            return Err(invalid("Received a payload where none belongs", buffer));
        }
        Ok(Discard)
    }

    /// Writes nothing: the code alone carries the message.
    pub fn write(&self, buffer: &mut BytesMut)
        requires
            bytes_of(*old(buffer)).len() + payload_of(self.view()).len() <= isize::MAX,
        ensures
            bytes_of(*final(buffer)) == bytes_of(*old(buffer)) + payload_of(self.view()),
    {
        assert(bytes_of(*buffer) =~= bytes_of(*old(buffer)) + payload_of(self.view()));
    }

    pub fn len(&self) -> (r: usize)
        ensures
            r == capped(payload_of(self.view()).len()),
    {
        0
    }

    pub fn code(&self) -> (r: u8)
        ensures
            r == Self::CODE,
    {
        Self::CODE
    }
}

/// Reject this mail, informing the smtp client about it.
#[derive(Debug, Clone, Copy)]
pub struct Reject;

impl Reject {
    pub const CODE: u8 = CODE_REJECT;

    pub open spec fn view(&self) -> MessageView {
        MessageView::Empty { code: Self::CODE }
    }

    /// Accepts an empty payload only.
    pub fn parse(buffer: BytesMut) -> (r: Result<Self, ProtocolError>)
        ensures
            parse_empty(Self::CODE, bytes_of(buffer)) == match r {
                Ok(m) => Ok(m.view()),
                Err(e) => Err(e.kind()),
            },
    {
        if buf_len(&buffer) != 0 {
            return Err(invalid("Received a payload where none belongs", buffer));
        }
        Ok(Reject)
    }

    /// Writes nothing: the code alone carries the message.
    pub fn write(&self, buffer: &mut BytesMut)
        requires
            bytes_of(*old(buffer)).len() + payload_of(self.view()).len() <= isize::MAX,
        ensures
            bytes_of(*final(buffer)) == bytes_of(*old(buffer)) + payload_of(self.view()),
    {
        assert(bytes_of(*buffer) =~= bytes_of(*old(buffer)) + payload_of(self.view()));
    }

    pub fn len(&self) -> (r: usize)
        ensures
            r == capped(payload_of(self.view()).len()),
    {
        0
    }

    pub fn code(&self) -> (r: u8)
        ensures
            r == Self::CODE,
    {
        Self::CODE
    }
}

/// Return a tempfail code to the smtp client.
#[derive(Debug, Clone, Copy)]
pub struct Tempfail;

impl Tempfail {
    pub const CODE: u8 = CODE_TEMPFAIL;

    pub open spec fn view(&self) -> MessageView {
        MessageView::Empty { code: Self::CODE }
    }

    /// Accepts an empty payload only.
    pub fn parse(buffer: BytesMut) -> (r: Result<Self, ProtocolError>)
        ensures
            parse_empty(Self::CODE, bytes_of(buffer)) == match r {
                Ok(m) => Ok(m.view()),
                Err(e) => Err(e.kind()),
            },
    {
        if buf_len(&buffer) != 0 {
            return Err(invalid("Received a payload where none belongs", buffer));
        }
        Ok(Tempfail)
    }

    /// Writes nothing: the code alone carries the message.
    pub fn write(&self, buffer: &mut BytesMut)
        requires
            bytes_of(*old(buffer)).len() + payload_of(self.view()).len() <= isize::MAX,
        ensures
            bytes_of(*final(buffer)) == bytes_of(*old(buffer)) + payload_of(self.view()),
    {
        assert(bytes_of(*buffer) =~= bytes_of(*old(buffer)) + payload_of(self.view()));
    }

    pub fn len(&self) -> (r: usize)
        ensures
            r == capped(payload_of(self.view()).len()),
    {
        0
    }

    pub fn code(&self) -> (r: u8)
        ensures
            r == Self::CODE,
    {
        Self::CODE
    }
}

/// Skip the rest of this mail's processing.
#[derive(Debug, Clone, Copy)]
pub struct Skip;

impl Skip {
    pub const CODE: u8 = CODE_SKIP;

    pub open spec fn view(&self) -> MessageView {
        MessageView::Empty { code: Self::CODE }
    }

    /// Accepts an empty payload only.
    pub fn parse(buffer: BytesMut) -> (r: Result<Self, ProtocolError>)
        ensures
            parse_empty(Self::CODE, bytes_of(buffer)) == match r {
                Ok(m) => Ok(m.view()),
                Err(e) => Err(e.kind()),
            },
    {
        if buf_len(&buffer) != 0 {
            return Err(invalid("Received a payload where none belongs", buffer));
        }
        Ok(Skip)
    }

    /// Writes nothing: the code alone carries the message.
    pub fn write(&self, buffer: &mut BytesMut)
        requires
            bytes_of(*old(buffer)).len() + payload_of(self.view()).len() <= isize::MAX,
        ensures
            bytes_of(*final(buffer)) == bytes_of(*old(buffer)) + payload_of(self.view()),
    {
        assert(bytes_of(*buffer) =~= bytes_of(*old(buffer)) + payload_of(self.view()));
    }

    pub fn len(&self) -> (r: usize)
        ensures
            r == capped(payload_of(self.view()).len()),
    {
        0
    }

    pub fn code(&self) -> (r: u8)
        ensures
            r == Self::CODE,
    {
        Self::CODE
    }
}

/// All control-flow actions combined.
#[derive(Debug)]
pub enum Action {
    Continue(Continue),
    Abort(Abort),
    Discard(Discard),
    Reject(Reject),
    Tempfail(Tempfail),
    Skip(Skip),
    Replycode(Replycode),
    Quit(Quit),
    QuitNc(QuitNc),
}

impl Action {
    pub open spec fn view(&self) -> MessageView {
        match self {
            Action::Continue(a) => a.view(),
            Action::Abort(a) => a.view(),
            Action::Discard(a) => a.view(),
            Action::Reject(a) => a.view(),
            Action::Tempfail(a) => a.view(),
            Action::Skip(a) => a.view(),
            Action::Replycode(a) => a.view(),
            Action::Quit(a) => a.view(),
            Action::QuitNc(a) => a.view(),
        }
    }

    /// A reply code, if any, reads as its numbers.
    pub open spec fn wf(&self) -> bool {
        match self {
            Action::Replycode(a) => a.wf(),
            _ => true,
        }
    }

    pub fn write(&self, buffer: &mut BytesMut)
        requires
            bytes_of(*old(buffer)).len() + payload_of(self.view()).len() <= isize::MAX,
        ensures
            bytes_of(*final(buffer)) == bytes_of(*old(buffer)) + payload_of(self.view()),
    {
        match self {
            Action::Continue(a) => a.write(buffer),
            Action::Abort(a) => a.write(buffer),
            Action::Discard(a) => a.write(buffer),
            Action::Reject(a) => a.write(buffer),
            Action::Tempfail(a) => a.write(buffer),
            Action::Skip(a) => a.write(buffer),
            Action::Replycode(a) => a.write(buffer),
            Action::Quit(a) => a.write(buffer),
            Action::QuitNc(a) => a.write(buffer),
        }
    }

    pub fn len(&self) -> (r: usize)
        ensures
            r == capped(payload_of(self.view()).len()),
    {
        match self {
            Action::Continue(a) => a.len(),
            Action::Abort(a) => a.len(),
            Action::Discard(a) => a.len(),
            Action::Reject(a) => a.len(),
            Action::Tempfail(a) => a.len(),
            Action::Skip(a) => a.len(),
            Action::Replycode(a) => a.len(),
            Action::Quit(a) => a.len(),
            Action::QuitNc(a) => a.len(),
        }
    }

    pub fn code(&self) -> (r: u8)
        ensures
            r == crate::message::code_of(self.view()),
    {
        match self {
            Action::Continue(a) => a.code(),
            Action::Abort(a) => a.code(),
            Action::Discard(a) => a.code(),
            Action::Reject(a) => a.code(),
            Action::Tempfail(a) => a.code(),
            Action::Skip(a) => a.code(),
            Action::Replycode(a) => a.code(),
            Action::Quit(a) => a.code(),
            Action::QuitNc(a) => a.code(),
        }
    }

    /// Whether this is a `Continue`.
    pub fn is_continue(&self) -> (r: bool)
        ensures
            r == (self is Continue),
    {
        match self {
            Action::Continue(_) => true,
            _ => false,
        }
    }
}

} // verus!
