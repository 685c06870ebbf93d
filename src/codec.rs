//! The framed codec: a four-byte big-endian length, then the code and the
//! payload, bounded by a configured maximum.
use bytes::BytesMut;
use vstd::prelude::*;

use crate::buffer::{
    be_u32, buf_advance, buf_byte, buf_len, buf_put_u32, buf_put_u8, reserve_room,
    buf_split_to, bytes_of, capped, u32_be_bytes,
};
use crate::decoding::{short_index_payload, ClientCommand, ServerCommand};
use crate::encoding::{ClientMessage, ServerMessage};
use crate::error::{not_enough_with, ErrorKind, ProtocolError};
use crate::message::{CODE_CHANGE_HEADER, CODE_INSERT_HEADER, code_of, parse_client, parse_server, payload_of, MessageView};

verus! {

/// The default bound on a frame's length.
pub const DEFAULT_MAX_BUFFER_SIZE: usize = 65536;

/// What decoding the front of a buffer comes to, and what stays buffered.
pub open spec fn decode_spec(
    buf: Seq<u8>,
    max: usize,
    parse: spec_fn(Seq<u8>) -> Result<MessageView, ErrorKind>,
) -> (Result<Option<MessageView>, ErrorKind>, Seq<u8>) {
    if buf.len() < 4 {
        (Ok(None), buf)
    } else if be_u32(buf) > max {
        (Err(ErrorKind::TooMuchData(be_u32(buf) as usize)), buf)
    } else if buf.len() < 4 + be_u32(buf) {
        (Ok(None), buf)
    } else {
        (
            match parse(buf.subrange(4, 4 + be_u32(buf))) {
                Ok(m) => Ok(Some(m)),
                Err(e) => Err(e),
            },
            buf.skip(4 + be_u32(buf)),
        )
    }
}

/// The frame that carries `m`, or the error when it may not be sent under
/// the bound `max`.
pub open spec fn encode_spec(m: MessageView, max: usize) -> Result<Seq<u8>, ErrorKind> {
    let n = payload_of(m).len();
    if n + 1 > max || n + 1 > u32::MAX {
        Err(ErrorKind::TooMuchData(capped(n)))
    } else {
        Ok(u32_be_bytes((n + 1) as u32) + seq![code_of(m)] + payload_of(m))
    }
}

/// The result of a decoder, as the model sees it.
pub open spec fn client_outcome(r: Result<Option<ClientCommand>, ProtocolError>) -> Result<
    Option<MessageView>,
    ErrorKind,
> {
    match r {
        Ok(Some(c)) => Ok(Some(c.view())),
        Ok(None) => Ok(None),
        Err(e) => Err(e.kind()),
    }
}

/// The result of a decoder, as the model sees it.
pub open spec fn server_outcome(r: Result<Option<ServerCommand>, ProtocolError>) -> Result<
    Option<MessageView>,
    ErrorKind,
> {
    match r {
        Ok(Some(c)) => Ok(Some(c.view())),
        Ok(None) => Ok(None),
        Err(e) => Err(e.kind()),
    }
}

/// Frames messages to and from bytes under a bound on their length.
#[derive(Debug, Clone, Copy)]
pub struct MilterCodec {
    pub max_buffer_size: usize,
}

/// The outcome of checking the front of a buffer for a whole frame.
enum FrameCheck {
    NeedMore,
    TooLong(usize),
    Ready(usize),
}

impl MilterCodec {
    pub fn new(max_buffer_size: usize) -> (r: Self)
        ensures
            r.max_buffer_size == max_buffer_size,
    {
        MilterCodec { max_buffer_size }
    }

    /// Reads the length prefix without consuming it, and reserves room for
    /// the rest of a frame that has not arrived yet.
    fn check_frame(&self, src: &mut BytesMut) -> (r: FrameCheck)
        ensures
            bytes_of(*final(src)) == bytes_of(*old(src)),
            bytes_of(*old(src)).len() <= usize::MAX,
            ({
                let b = bytes_of(*old(src));
                match r {
                    FrameCheck::NeedMore => b.len() < 4 || (be_u32(b) <= self.max_buffer_size
                        && b.len() < 4 + be_u32(b)),
                    FrameCheck::TooLong(n) => b.len() >= 4 && be_u32(b) > self.max_buffer_size
                        && n == be_u32(b),
                    FrameCheck::Ready(n) => b.len() >= 4 && be_u32(b) <= self.max_buffer_size
                        && b.len() >= 4 + be_u32(b) && n == be_u32(b),
                }
            }),
    {
        let have = buf_len(src);
        if have < 4 {
            return FrameCheck::NeedMore;
        }
        let b0 = buf_byte(src, 0) as u32;
        let b1 = buf_byte(src, 1) as u32;
        let b2 = buf_byte(src, 2) as u32;
        let b3 = buf_byte(src, 3) as u32;
        let length_u32: u32 = b0 * 16777216 + b1 * 65536 + b2 * 256 + b3;
        let length = length_u32 as usize;
        if length > self.max_buffer_size {
            return FrameCheck::TooLong(length);
        }
        if have - 4 < length {
            reserve_room(src, length - (have - 4));
            return FrameCheck::NeedMore;
        }
        FrameCheck::Ready(length)
    }

    /// Decodes one message sent by the MTA from the front of `src`, if a
    /// whole frame is there.
    pub fn decode_client(&self, src: &mut BytesMut) -> (r: Result<
        Option<ClientCommand>,
        ProtocolError,
    >)
        ensures
            (client_outcome(r), bytes_of(*final(src))) == decode_spec(
                bytes_of(*old(src)),
                self.max_buffer_size,
                |s: Seq<u8>| parse_client(s),
            ),
    {
        match self.check_frame(src) {
            FrameCheck::NeedMore => Ok(None),
            FrameCheck::TooLong(n) => Err(ProtocolError::TooMuchData(n)),
            FrameCheck::Ready(length) => {
                let ghost b = bytes_of(*src);
                let mut frame = buf_split_to(src, 4 + length);
                buf_advance(&mut frame, 4);
                assert(bytes_of(frame) =~= b.subrange(4, 4 + length));
                match ClientCommand::parse(frame) {
                    Ok(c) => Ok(Some(c)),
                    Err(e) => Err(e),
                }
            },
        }
    }

    /// Decodes one message sent by the filter from the front of `src`, if a
    /// whole frame is there.
    pub fn decode_server(&self, src: &mut BytesMut) -> (r: Result<
        Option<ServerCommand>,
        ProtocolError,
    >)
        ensures
            (server_outcome(r), bytes_of(*final(src))) == decode_spec(
                bytes_of(*old(src)),
                self.max_buffer_size,
                |s: Seq<u8>| parse_server(s),
            ),
            ({
                let b = bytes_of(*old(src));
                let frame = b.subrange(4, 4 + be_u32(b));
                b.len() >= 4 && be_u32(b) <= self.max_buffer_size && b.len() >= 4 + be_u32(b)
                    ==> (short_index_payload(frame, CODE_CHANGE_HEADER) ==> r is Err
                    && not_enough_with(r->Err_0, "ChangeHeader", 4, (frame.len() - 1) as usize))
                    && (short_index_payload(frame, CODE_INSERT_HEADER) ==> r is Err
                    && not_enough_with(r->Err_0, "InsertHeader", 4, (frame.len() - 1) as usize))
            }),
    {
        match self.check_frame(src) {
            FrameCheck::NeedMore => Ok(None),
            FrameCheck::TooLong(n) => Err(ProtocolError::TooMuchData(n)),
            FrameCheck::Ready(length) => {
                let ghost b = bytes_of(*src);
                let mut frame = buf_split_to(src, 4 + length);
                buf_advance(&mut frame, 4);
                assert(bytes_of(frame) =~= b.subrange(4, 4 + length));
                match ServerCommand::parse(frame) {
                    Ok(c) => Ok(Some(c)),
                    Err(e) => Err(e),
                }
            },
        }
    }

    /// Checks the payload length of a message against the bound; `Ok` holds
    /// the frame length (code and payload).
    fn frame_length(&self, item_len: usize) -> (r: Result<u32, ProtocolError>)
        ensures
            match r {
                Ok(n) => item_len + 1 <= self.max_buffer_size && item_len + 1 <= u32::MAX && n
                    == item_len + 1,
                Err(e) => (item_len + 1 > self.max_buffer_size || item_len + 1 > u32::MAX)
                    && e.kind() == ErrorKind::TooMuchData(item_len),
            },
    {
        if item_len >= self.max_buffer_size || item_len >= 0xffff_ffffusize {
            return Err(ProtocolError::TooMuchData(item_len));
        }
        Ok((item_len + 1) as u32)
    }

    /// Encodes a message of the filter as one frame appended to `dst`.
    pub fn encode_server(&self, item: &ServerMessage, dst: &mut BytesMut) -> (r: Result<
        (),
        ProtocolError,
    >)
        requires
            item.wf(),
            bytes_of(*old(dst)).len() + payload_of(item.view()).len() + 5 <= isize::MAX,
        ensures
            match encode_spec(item.view(), self.max_buffer_size) {
                Ok(frame) => r is Ok && bytes_of(*final(dst)) == bytes_of(*old(dst)) + frame,
                Err(e) => r is Err && r->Err_0.kind() == e && bytes_of(*final(dst)) == bytes_of(
                    *old(dst),
                ),
            },
    {
        let item_len = item.len();
        let packet_len = self.frame_length(item_len)?;
        reserve_room(dst, packet_len as usize);
        buf_put_u32(dst, packet_len);
        buf_put_u8(dst, item.code());
        item.write(dst);
        assert(bytes_of(*dst) =~= bytes_of(*old(dst)) + (u32_be_bytes(packet_len) + seq![
            code_of(item.view()),
        ] + payload_of(item.view())));
        Ok(())
    }

    /// Encodes a message of the MTA as one frame appended to `dst`.
    pub fn encode_client(&self, item: &ClientMessage, dst: &mut BytesMut) -> (r: Result<
        (),
        ProtocolError,
    >)
        requires
            item.wf(),
            bytes_of(*old(dst)).len() + payload_of(item.view()).len() + 5 <= isize::MAX,
        ensures
            match encode_spec(item.view(), self.max_buffer_size) {
                Ok(frame) => r is Ok && bytes_of(*final(dst)) == bytes_of(*old(dst)) + frame,
                Err(e) => r is Err && r->Err_0.kind() == e && bytes_of(*final(dst)) == bytes_of(
                    *old(dst),
                ),
            },
    {
        let item_len = item.len();
        let packet_len = self.frame_length(item_len)?;
        reserve_room(dst, packet_len as usize);
        buf_put_u32(dst, packet_len);
        buf_put_u8(dst, item.code());
        item.write(dst);
        assert(bytes_of(*dst) =~= bytes_of(*old(dst)) + (u32_be_bytes(packet_len) + seq![
            code_of(item.view()),
        ] + payload_of(item.view())));
        Ok(())
    }
}

impl Default for MilterCodec {
    fn default() -> (r: Self)
        ensures
            r.max_buffer_size == DEFAULT_MAX_BUFFER_SIZE,
    {
        MilterCodec::new(DEFAULT_MAX_BUFFER_SIZE)
    }
}

} // verus!
