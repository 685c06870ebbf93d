//! The ways in which a payload or a frame can fail to decode or encode.
use bytes::BytesMut;
use vstd::prelude::*;

use crate::buffer::bytes_of;
use crate::optneg::CompatibilityError;

verus! {

/// The stage named in a `NotEnoughData` raised while decoding.
pub const STAGE_DECODING: &'static str = "decoding";

/// What went wrong, without the diagnostics that the errors carry.
pub enum ErrorKind {
    InvalidData,
    NotEnoughData,
    Compatibility,
    TooMuchData(usize),
}

/// Encapsulating error for the different de-/encoding problems.
#[derive(Debug)]
pub enum ProtocolError {
    /// Data that could not be interpreted
    InvalidData(InvalidData),
    /// Clearly not enough data was present
    NotEnoughData(NotEnoughData),
    /// The two ends cannot agree on the options of the conversation
    CompatibilityError(CompatibilityError),
    /// A frame longer than the configured bound (its length)
    TooMuchData(usize),
}

impl ProtocolError {
    pub open spec fn kind(&self) -> ErrorKind {
        match self {
            ProtocolError::InvalidData(_) => ErrorKind::InvalidData,
            ProtocolError::NotEnoughData(_) => ErrorKind::NotEnoughData,
            ProtocolError::CompatibilityError(_) => ErrorKind::Compatibility,
            ProtocolError::TooMuchData(n) => ErrorKind::TooMuchData(*n),
        }
    }
}

/// Error when receiving bogus data from the other end.
#[derive(Debug)]
pub struct InvalidData {
    /// A human readable message
    pub msg: &'static str,
    /// The data that was invalid
    pub offending_bytes: BytesMut,
}

impl InvalidData {
    /// Create a new `InvalidData` error.
    pub fn new(msg: &'static str, offending_bytes: BytesMut) -> (r: Self)
        ensures
            r.msg == msg,
            bytes_of(r.offending_bytes) == bytes_of(offending_bytes),
    {
        InvalidData { msg, offending_bytes }
    }
}

/// Raised when definitely more data is necessary.
#[derive(Debug)]
pub struct NotEnoughData {
    /// The stage at which data is missing
    pub stage: &'static str,
    /// The item that is missing data
    pub item: &'static str,
    /// Human readable message
    pub msg: &'static str,
    /// How many bytes were expected
    pub expected: usize,
    /// How many bytes were available
    pub got: usize,
    /// The problematic bytes
    pub buffer: BytesMut,
}

impl NotEnoughData {
    /// Create a new `NotEnoughData` error.
    pub fn new(
        stage: &'static str,
        item: &'static str,
        msg: &'static str,
        expected: usize,
        got: usize,
        buffer: BytesMut,
    ) -> (r: Self)
        ensures
            r.stage == stage,
            r.item == item,
            r.msg == msg,
            r.expected == expected,
            r.got == got,
            bytes_of(r.buffer) == bytes_of(buffer),
    {
        NotEnoughData { stage, item, msg, expected, got, buffer }
    }
}

/// `e` is an `InvalidData` error that carries `bytes` as the offending bytes.
pub open spec fn invalid_with(e: ProtocolError, bytes: Seq<u8>) -> bool {
    match e {
        ProtocolError::InvalidData(d) => bytes_of(d.offending_bytes) == bytes,
        _ => false,
    }
}

/// `e` is a `NotEnoughData` error that records `item`, `expected` and `got`.
pub open spec fn not_enough_with(e: ProtocolError, item: &str, expected: usize, got: usize) -> bool {
    match e {
        ProtocolError::NotEnoughData(d) => d.item == item && d.expected == expected && d.got == got,
        _ => false,
    }
}

/// An `InvalidData` error as a `ProtocolError`.
pub fn invalid(msg: &'static str, offending_bytes: BytesMut) -> (r: ProtocolError)
    ensures
        r.kind() == ErrorKind::InvalidData,
        invalid_with(r, bytes_of(offending_bytes)),
{
    ProtocolError::InvalidData(InvalidData::new(msg, offending_bytes))
}

/// A `NotEnoughData` error of the decoding stage as a `ProtocolError`.
pub fn not_enough(
    item: &'static str,
    msg: &'static str,
    expected: usize,
    got: usize,
    buffer: BytesMut,
) -> (r: ProtocolError)
    ensures
        r.kind() == ErrorKind::NotEnoughData,
        not_enough_with(r, item, expected, got),
{
    ProtocolError::NotEnoughData(NotEnoughData::new(STAGE_DECODING, item, msg, expected, got, buffer))
}

} // verus!
