//! Option negotiation: version, capabilities, protocol flags and macro stages.
use bytes::BytesMut;
use vstd::prelude::*;

use crate::buffer::{
    be_u32, capped, sat_add, buf_extend, buf_get_u32, buf_len, buf_new, buf_put_u32, buf_put_u8, bytes_of,
    lemma_be_u32_of_bytes, u32_be_bytes,
};
use crate::commands::Command;
use crate::error::{invalid, not_enough, ProtocolError};
use crate::parsing::{delimited, split_fields_of};
use vstd::string::StringSliceAdditionalSpecFns;
use crate::message::{
    code_of, join_symbols, no_stages, nul_terminated, parse_optneg, parse_stages_into, payload_of,
    stages_blob_from, MessageView, CODE_BODY, CODE_CONNECT, CODE_DATA, CODE_END_OF_HEADER,
    CODE_HEADER, CODE_HELO, CODE_MAIL, CODE_OPTNEG, CODE_RECIPIENT, CODE_UNKNOWN,
};

verus! {

/// What a filter may do to a mail: a set of bits.
#[derive(Debug, Clone, Copy, PartialEq, Eq, Structural)]
pub struct Capability {
    bits: u32,
}

/// All bits that stand for a known capability.
pub open spec fn all_capability_bits() -> u32 {
    0xff
}

impl Capability {
    /// Add headers
    pub const SMFIF_ADDHDRS: u32 = 0x01;
    /// Replace the body
    pub const SMFIF_CHGBODY: u32 = 0x02;
    /// Add recipients
    pub const SMFIF_ADDRCPT: u32 = 0x04;
    /// Remove recipients
    pub const SMFIF_DELRCPT: u32 = 0x08;
    /// Change or delete headers
    pub const SMFIF_CHGHDRS: u32 = 0x10;
    /// Quarantine the message
    pub const SMFIF_QUARANTINE: u32 = 0x20;
    /// Change the sender
    pub const SMFIF_CHGFROM: u32 = 0x40;
    /// Add a recipient with ESMTP arguments
    pub const SMFIF_ADDRCPT_PAR: u32 = 0x80;

    pub closed spec fn view(&self) -> u32 {
        self.bits
    }

    /// The capabilities of the given bits, unknown bits included.
    pub fn from_bits_retain(bits: u32) -> (r: Self)
        ensures
            r@ == bits,
    {
        Capability { bits }
    }

    /// The capabilities of the given bits; `None` where a bit stands for no
    /// known capability.
    pub fn from_bits(bits: u32) -> (r: Option<Self>)
        ensures
            r is Some <==> bits & !all_capability_bits() == 0,
            r is Some ==> r->0@ == bits,
    {
        if bits & !0xffu32 == 0 {
            Some(Capability { bits })
        } else {
            None
        }
    }

    /// All known capabilities.
    pub fn all() -> (r: Self)
        ensures
            r@ == all_capability_bits(),
    {
        Capability { bits: 0xff }
    }

    /// No capability.
    pub fn empty() -> (r: Self)
        ensures
            r@ == 0,
    {
        Capability { bits: 0 }
    }

    pub fn bits(&self) -> (r: u32)
        ensures
            r == self@,
    {
        self.bits
    }

    /// Whether every bit of `flags` is set.
    pub fn contains(&self, flags: u32) -> (r: bool)
        ensures
            r == (self@ & flags == flags),
    {
        self.bits & flags == flags
    }

    /// The capabilities in both.
    pub fn intersection(self, other: Self) -> (r: Self)
        ensures
            r@ == self@ & other@,
    {
        Capability { bits: self.bits & other.bits }
    }

    /// Merge `other` capabilities with `self`: those that both allow.
    pub fn merge_regarding_version(self, _version: u32, other: Self) -> (r: Self)
        ensures
            r@ == self@ & other@,
    {
        self.intersection(other)
    }
}

impl Default for Capability {
    /// All capabilities are enabled by default.
    fn default() -> (r: Self)
        ensures
            r@ == all_capability_bits(),
    {
        Capability::all()
    }
}

/// Protocol flags: which commands the MTA leaves out and which get no reply.
#[derive(Debug, Clone, Copy, PartialEq, Eq, Structural)]
pub struct Protocol {
    bits: u32,
}

/// Whether `flags` holds every bit of `flag`.
pub open spec fn has_flag(flags: u32, flag: u32) -> bool {
    flags & flag == flag
}

/// With protocol flags `p`, the MTA does not send the command of code `c`.
pub open spec fn skips_send(p: u32, c: u8) -> bool {
    if c == CODE_CONNECT {
        has_flag(p, Protocol::NO_CONNECT)
    } else if c == CODE_HELO {
        has_flag(p, Protocol::NO_HELO)
    } else if c == CODE_MAIL {
        has_flag(p, Protocol::NO_MAIL)
    } else if c == CODE_RECIPIENT {
        has_flag(p, Protocol::NO_RECIPIENT)
    } else if c == CODE_HEADER {
        has_flag(p, Protocol::NO_HEADER)
    } else if c == CODE_END_OF_HEADER {
        has_flag(p, Protocol::NO_END_OF_HEADER)
    } else if c == CODE_DATA {
        has_flag(p, Protocol::NO_DATA)
    } else if c == CODE_BODY {
        has_flag(p, Protocol::NO_BODY)
    } else if c == CODE_UNKNOWN {
        has_flag(p, Protocol::NO_UNKNOWN)
    } else {
        false
    }
}

/// With protocol flags `p`, the command of code `c` gets no reply.
pub open spec fn skips_response(p: u32, c: u8) -> bool {
    if c == CODE_CONNECT {
        has_flag(p, Protocol::NR_CONNECT)
    } else if c == CODE_HELO {
        has_flag(p, Protocol::NR_HELO)
    } else if c == CODE_MAIL {
        has_flag(p, Protocol::NR_MAIL)
    } else if c == CODE_RECIPIENT {
        has_flag(p, Protocol::NR_RECIPIENT)
    } else if c == CODE_HEADER {
        has_flag(p, Protocol::NR_HEADER)
    } else if c == CODE_END_OF_HEADER {
        has_flag(p, Protocol::NR_END_OF_HEADER)
    } else if c == CODE_DATA {
        has_flag(p, Protocol::NR_DATA)
    } else if c == CODE_BODY {
        has_flag(p, Protocol::NR_BODY)
    } else if c == CODE_UNKNOWN {
        has_flag(p, Protocol::NR_UNKNOWN)
    } else {
        false
    }
}

impl Protocol {
    /// The MTA does not send connect information
    pub const NO_CONNECT: u32 = 0x1;
    /// The MTA does not send HELO
    pub const NO_HELO: u32 = 0x2;
    /// The MTA does not send MAIL
    pub const NO_MAIL: u32 = 0x4;
    /// The MTA does not send RCPT
    pub const NO_RECIPIENT: u32 = 0x8;
    /// The MTA does not send the body
    pub const NO_BODY: u32 = 0x10;
    /// The MTA does not send headers
    pub const NO_HEADER: u32 = 0x20;
    /// The MTA does not send the end of headers
    pub const NO_END_OF_HEADER: u32 = 0x40;
    /// No reply to headers
    pub const NR_HEADER: u32 = 0x80;
    /// The MTA does not send unknown commands
    pub const NO_UNKNOWN: u32 = 0x100;
    /// The MTA does not send DATA
    pub const NO_DATA: u32 = 0x200;
    /// The MTA understands the skip action
    pub const SMFIP_SKIP: u32 = 0x400;
    /// The MTA also sends rejected recipients
    pub const SMFIP_RCPT_REJ: u32 = 0x800;
    /// No reply to connect
    pub const NR_CONNECT: u32 = 0x1000;
    /// No reply to HELO
    pub const NR_HELO: u32 = 0x2000;
    /// No reply to MAIL
    pub const NR_MAIL: u32 = 0x4000;
    /// No reply to RCPT
    pub const NR_RECIPIENT: u32 = 0x8000;
    /// No reply to DATA
    pub const NR_DATA: u32 = 0x10000;
    /// No reply to unknown commands
    pub const NR_UNKNOWN: u32 = 0x20000;
    /// No reply to the end of headers
    pub const NR_END_OF_HEADER: u32 = 0x40000;
    /// No reply to body chunks
    pub const NR_BODY: u32 = 0x80000;
    /// Header values keep their leading space
    pub const SMFIP_HDR_LEADSPC: u32 = 0x100000;

    pub closed spec fn view(&self) -> u32 {
        self.bits
    }

    /// The protocol of the given bits, unknown bits included.
    pub fn from_bits_retain(bits: u32) -> (r: Self)
        ensures
            r@ == bits,
    {
        Protocol { bits }
    }

    /// No flag set.
    pub fn empty() -> (r: Self)
        ensures
            r@ == 0,
    {
        Protocol { bits: 0 }
    }

    pub fn bits(&self) -> (r: u32)
        ensures
            r == self@,
    {
        self.bits
    }

    /// Whether every bit of `flags` is set.
    pub fn contains(&self, flags: u32) -> (r: bool)
        ensures
            r == has_flag(self@, flags),
    {
        self.bits & flags == flags
    }

    /// The flags set in both.
    pub fn intersection(self, other: Self) -> (r: Self)
        ensures
            r@ == self@ & other@,
    {
        Protocol { bits: self.bits & other.bits }
    }

    /// Whether the MTA leaves `command` out.
    pub fn should_skip_send(&self, command: &Command) -> (r: bool)
        ensures
            r == skips_send(self@, code_of(command.view())),
    {
        match command {
            Command::Connect(_) => self.contains(Protocol::NO_CONNECT),
            Command::Helo(_) => self.contains(Protocol::NO_HELO),
            Command::Mail(_) => self.contains(Protocol::NO_MAIL),
            Command::Recipient(_) => self.contains(Protocol::NO_RECIPIENT),
            Command::Header(_) => self.contains(Protocol::NO_HEADER),
            Command::EndOfHeader(_) => self.contains(Protocol::NO_END_OF_HEADER),
            Command::Data(_) => self.contains(Protocol::NO_DATA),
            Command::Body(_) => self.contains(Protocol::NO_BODY),
            Command::EndOfBody(_) => false,
            Command::Unknown(_) => self.contains(Protocol::NO_UNKNOWN),
        }
    }

    /// Whether `command` is sent without awaiting a reply.
    pub fn should_skip_response(&self, command: &Command) -> (r: bool)
        ensures
            r == skips_response(self@, code_of(command.view())),
    {
        match command {
            Command::Connect(_) => self.contains(Protocol::NR_CONNECT),
            Command::Helo(_) => self.contains(Protocol::NR_HELO),
            Command::Mail(_) => self.contains(Protocol::NR_MAIL),
            Command::Recipient(_) => self.contains(Protocol::NR_RECIPIENT),
            Command::Header(_) => self.contains(Protocol::NR_HEADER),
            Command::EndOfHeader(_) => self.contains(Protocol::NR_END_OF_HEADER),
            Command::Data(_) => self.contains(Protocol::NR_DATA),
            Command::Body(_) => self.contains(Protocol::NR_BODY),
            Command::EndOfBody(_) => false,
            Command::Unknown(_) => self.contains(Protocol::NR_UNKNOWN),
        }
    }

    /// Merge `other` protocol with `self`: the flags that both set.
    pub fn merge_regarding_version(self, _version: u32, other: Self) -> (r: Self)
        ensures
            r@ == self@ & other@,
    {
        self.intersection(other)
    }
}

impl Default for Protocol {
    /// No flag is set by default.
    fn default() -> (r: Self)
        ensures
            r@ == 0,
    {
        Protocol::empty()
    }
}

/// Comparing compatibilities between different option negotiations may
/// produce this error.
#[derive(Debug)]
pub enum CompatibilityError {
    /// The peer speaks a newer version than this end supports
    UnsupportedVersion {
        /// The version received
        received: u32,
        /// The version supported
        supported: u32,
    },
}

/// A copy of the bytes.
pub fn bytes_to_vec(s: &[u8]) -> (r: Vec<u8>)
    ensures
        r@ == s@,
{
    let mut out: Vec<u8> = Vec::new();
    let mut i: usize = 0;
    while i < s.len()
        invariant
            i <= s@.len(),
            out@ == s@.take(i as int),
        decreases s@.len() - i,
    {
        out.push(s[i]);
        i = i + 1;
        assert(out@ =~= s@.take(i as int));
    }
    assert(s@.take(i as int) =~= s@);
    out
}

/// The bytes that a stage's symbols take in the blob: each symbol and one
/// separator (the last one being the NUL).
pub open spec fn symbols_len(syms: Seq<Seq<u8>>) -> nat
    decreases syms.len(),
{
    if syms.len() == 0 {
        0
    } else {
        symbols_len(syms.drop_last()) + syms.last().len() + 1
    }
}

/// The bytes that the stages from `i` on take in the blob: for each
/// non-empty stage its four-byte id and its symbols.
pub open spec fn stages_len_from(stages: Seq<Seq<Seq<u8>>>, i: int) -> nat
    decreases stages.len() - i,
{
    if i < 0 || i >= stages.len() {
        0
    } else if stages[i].len() == 0 {
        stages_len_from(stages, i + 1)
    } else {
        4 + symbols_len(stages[i]) + stages_len_from(stages, i + 1)
    }
}

proof fn lemma_join_len(syms: Seq<Seq<u8>>)
    requires
        syms.len() >= 1,
    ensures
        join_symbols(syms).len() + 1 == symbols_len(syms),
    decreases syms.len(),
{
    if syms.len() == 1 {
        assert(syms.drop_last().len() == 0);
        assert(symbols_len(syms.drop_last()) == 0);
        assert(join_symbols(syms) == syms[0]);
    } else {
        lemma_join_len(syms.drop_last());
        assert(join_symbols(syms) == join_symbols(syms.drop_last()).push(32) + syms.last());
    }
}

proof fn lemma_blob_len(stages: Seq<Seq<Seq<u8>>>, i: int)
    requires
        0 <= i <= stages.len(),
    ensures
        stages_blob_from(stages, i).len() == stages_len_from(stages, i),
    decreases stages.len() - i,
{
    if i < stages.len() {
        lemma_blob_len(stages, i + 1);
        if stages[i].len() != 0 {
            lemma_join_len(stages[i]);
        }
    }
}

/// A stage of the SMTP session that macros belong to.
#[derive(Debug, Copy, Clone, PartialEq, Eq, Structural)]
pub enum MacroStage {
    Connect,
    Helo,
    MailFrom,
    RcptTo,
    Data,
    EndOfBody,
    EndOfHeaders,
    Header,
    Body,
    Unknown,
}

/// The number of macro stages.
pub const MACRO_STAGE_COUNT: usize = 10;

/// The id of a stage on the wire, which is also its place in `MacroStages`.
pub open spec fn stage_index(s: MacroStage) -> nat {
    match s {
        MacroStage::Connect => 0,
        MacroStage::Helo => 1,
        MacroStage::MailFrom => 2,
        MacroStage::RcptTo => 3,
        MacroStage::Data => 4,
        MacroStage::EndOfBody => 5,
        MacroStage::EndOfHeaders => 6,
        MacroStage::Header => 7,
        MacroStage::Body => 8,
        MacroStage::Unknown => 9,
    }
}

impl MacroStage {
    /// The id of this stage.
    pub fn as_usize(self) -> (r: usize)
        ensures
            r == stage_index(self),
            r < MACRO_STAGE_COUNT,
    {
        match self {
            MacroStage::Connect => 0,
            MacroStage::Helo => 1,
            MacroStage::MailFrom => 2,
            MacroStage::RcptTo => 3,
            MacroStage::Data => 4,
            MacroStage::EndOfBody => 5,
            MacroStage::EndOfHeaders => 6,
            MacroStage::Header => 7,
            MacroStage::Body => 8,
            MacroStage::Unknown => 9,
        }
    }

    /// The stage of the given id; ids past the last stage mean `Unknown`.
    pub fn from_index(value: usize) -> (r: Self)
        ensures
            value < MACRO_STAGE_COUNT ==> stage_index(r) == value,
            value >= MACRO_STAGE_COUNT ==> r == MacroStage::Unknown,
    {
        match value {
            0 => MacroStage::Connect,
            1 => MacroStage::Helo,
            2 => MacroStage::MailFrom,
            3 => MacroStage::RcptTo,
            4 => MacroStage::Data,
            5 => MacroStage::EndOfBody,
            6 => MacroStage::EndOfHeaders,
            7 => MacroStage::Header,
            8 => MacroStage::Body,
            _ => MacroStage::Unknown,
        }
    }
}

/// The macros a filter requests, one list of symbols per stage.
#[derive(Debug, Clone)]
pub struct MacroStages {
    stages: Vec<Vec<Vec<u8>>>,
}

/// The symbols of each stage, as bytes.
pub open spec fn stages_view(s: Seq<Vec<Vec<u8>>>) -> Seq<Seq<Seq<u8>>> {
    s.map_values(|st: Vec<Vec<u8>>| st@.map_values(|sym: Vec<u8>| sym@))
}

impl MacroStages {
    pub closed spec fn view(&self) -> Seq<Seq<Seq<u8>>> {
        stages_view(self.stages@)
    }

    /// One list for each stage.
    pub open spec fn wf(&self) -> bool {
        self@.len() == MACRO_STAGE_COUNT
    }

    /// No macros requested at any stage.
    pub fn new() -> (r: Self)
        ensures
            r.wf(),
            r@ == no_stages(),
    {
        let mut stages: Vec<Vec<Vec<u8>>> = Vec::new();
        let mut i: usize = 0;
        while i < MACRO_STAGE_COUNT
            invariant
                i <= MACRO_STAGE_COUNT,
                stages@.len() == i,
                forall|j: int| 0 <= j < i ==> (#[trigger] stages@[j])@.len() == 0,
            decreases MACRO_STAGE_COUNT - i,
        {
            stages.push(Vec::new());
            i = i + 1;
        }
        let r = MacroStages { stages };
        assert forall|j: int| 0 <= j < MACRO_STAGE_COUNT implies r@[j] =~= no_stages()[j] by {
            assert(stages@[j]@.len() == 0);
        }
        assert(r@ =~= no_stages());
        r
    }

    /// A copy of the symbols of the stage with id `i`.
    fn copy_stage(&self, i: usize) -> (r: Vec<Vec<u8>>)
        requires
            i < self@.len(),
        ensures
            r@.map_values(|sym: Vec<u8>| sym@) == self@[i as int],
    {
        let src = &self.stages[i];
        let mut out: Vec<Vec<u8>> = Vec::new();
        let mut k: usize = 0;
        while k < src.len()
            invariant
                k <= src@.len(),
                out@.map_values(|sym: Vec<u8>| sym@) == src@.take(k as int).map_values(
                    |sym: Vec<u8>| sym@,
                ),
            decreases src@.len() - k,
        {
            let sym = bytes_to_vec(src[k].as_slice());
            let ghost prev = out@;
            out.push(sym);
            proof {
                assert(src@.take(k + 1) =~= src@.take(k as int).push(src@[k as int]));
                assert(out@.map_values(|sym: Vec<u8>| sym@) =~= prev.map_values(
                    |sym: Vec<u8>| sym@,
                ).push(sym@));
                assert(src@.take(k + 1).map_values(|sym: Vec<u8>| sym@) =~= src@.take(
                    k as int,
                ).map_values(|sym: Vec<u8>| sym@).push(src@[k as int]@));
            }
            k = k + 1;
        }
        assert(src@.take(k as int) =~= src@);
        out
    }

    /// The symbols requested for `stage`.
    pub fn stage(&self, stage: MacroStage) -> (r: Vec<Vec<u8>>)
        requires
            self.wf(),
        ensures
            r@.map_values(|sym: Vec<u8>| sym@) == self@[stage_index(stage) as int],
    {
        self.copy_stage(stage.as_usize())
    }

    /// A copy holding the same symbols.
    pub fn duplicate(&self) -> (r: Self)
        requires
            self.wf(),
        ensures
            r.wf(),
            r@ == self@,
    {
        let mut stages: Vec<Vec<Vec<u8>>> = Vec::new();
        let mut i: usize = 0;
        while i < self.stages.len()
            invariant
                i <= self@.len(),
                self.wf(),
                stages_view(stages@) == self@.take(i as int),
            decreases self@.len() - i,
        {
            let st = self.copy_stage(i);
            let ghost prev = stages@;
            stages.push(st);
            proof {
                assert(self@.take(i + 1) =~= self@.take(i as int).push(self@[i as int]));
                assert(stages_view(stages@) =~= stages_view(prev).push(self@[i as int]));
            }
            i = i + 1;
        }
        assert(self@.take(i as int) =~= self@);
        MacroStages { stages }
    }

    /// Request `macros` for the `stage` provided.
    pub fn with_stage(&mut self, stage: MacroStage, macros: &[&str])
        requires
            old(self).wf(),
        ensures
            final(self).wf(),
            final(self)@ == old(self)@.update(
                stage_index(stage) as int,
                old(self)@[stage_index(stage) as int] + macros@.map_values(|m: &str| m.spec_bytes()),
            ),
    {
        let idx = stage.as_usize();
        let mut list = self.stages.remove(idx);
        let ghost start = list@;
        let mut k: usize = 0;
        while k < macros.len()
            invariant
                k <= macros@.len(),
                list@.map_values(|sym: Vec<u8>| sym@) == start.map_values(|sym: Vec<u8>| sym@)
                    + macros@.take(k as int).map_values(|m: &str| m.spec_bytes()),
            decreases macros@.len() - k,
        {
            let sym: Vec<u8> = bytes_to_vec(macros[k].as_bytes());
            let ghost prev = list@;
            list.push(sym);
            proof {
                assert(macros@.take(k + 1) =~= macros@.take(k as int).push(macros@[k as int]));
                assert(list@.map_values(|sym: Vec<u8>| sym@) =~= prev.map_values(
                    |sym: Vec<u8>| sym@,
                ).push(sym@));
                assert(macros@.take(k + 1).map_values(|m: &str| m.spec_bytes()) =~= macros@.take(
                    k as int,
                ).map_values(|m: &str| m.spec_bytes()).push(macros@[k as int].spec_bytes()));
            }
            k = k + 1;
        }
        assert(macros@.take(k as int) =~= macros@);
        self.stages.insert(idx, list);
        assert(self@ =~= old(self)@.update(
            stage_index(stage) as int,
            old(self)@[stage_index(stage) as int] + macros@.map_values(|m: &str| m.spec_bytes()),
        ));
    }

    /// Appends `symbols` to the stage with id `i`.
    fn append_symbols(&mut self, i: usize, symbols: Vec<Vec<u8>>)
        requires
            old(self).wf(),
            i < MACRO_STAGE_COUNT,
        ensures
            final(self).wf(),
            final(self)@ == old(self)@.update(
                i as int,
                old(self)@[i as int] + symbols@.map_values(|sym: Vec<u8>| sym@),
            ),
    {
        let mut list = self.stages.remove(i);
        let ghost start = list@;
        let mut symbols = symbols;
        let ghost all = symbols@;
        let mut k: usize = 0;
        let _n = symbols.len();
        while symbols.len() > 0
            invariant
                k <= all.len(),
                all.len() <= usize::MAX,
                symbols@ == all.skip(k as int),
                list@.map_values(|sym: Vec<u8>| sym@) == start.map_values(|sym: Vec<u8>| sym@)
                    + all.take(k as int).map_values(|sym: Vec<u8>| sym@),
            decreases symbols@.len(),
        {
            let sym = symbols.remove(0);
            let ghost prev = list@;
            list.push(sym);
            proof {
                assert(all.take(k + 1) =~= all.take(k as int).push(sym));
                assert(list@.map_values(|sym: Vec<u8>| sym@) =~= prev.map_values(
                    |sym: Vec<u8>| sym@,
                ).push(sym@));
                assert(all.take(k + 1).map_values(|sym: Vec<u8>| sym@) =~= all.take(
                    k as int,
                ).map_values(|sym: Vec<u8>| sym@).push(sym@));
            }
            k = k + 1;
            assert(symbols@ =~= all.skip(k as int));
        }
        assert(all.take(k as int) =~= all);
        self.stages.insert(i, list);
        assert(self@ =~= old(self)@.update(
            i as int,
            old(self)@[i as int] + all.map_values(|sym: Vec<u8>| sym@),
        ));
    }

    /// The macro-stages blob: each non-empty stage as its id, its symbols
    /// joined by single spaces, and a NUL.
    pub fn blob(&self) -> (r: Vec<u8>)
        requires
            self.wf(),
        ensures
            r@ == stages_blob_from(self@, 0),
    {
        let mut out: Vec<u8> = Vec::new();
        let mut i: usize = 0;
        while i < self.stages.len()
            invariant
                self.wf(),
                i <= self@.len(),
                out@ + stages_blob_from(self@, i as int) == stages_blob_from(self@, 0),
            decreases self@.len() - i,
        {
            let ghost before = out@;
            let stage = &self.stages[i];
            if stage.len() != 0 {
                let id = i as u32;
                out.push((id >> 24u32) as u8);
                out.push((id >> 16u32) as u8);
                out.push((id >> 8u32) as u8);
                out.push(id as u8);
                assert(out@ =~= before + u32_be_bytes(i as u32));
                let mut j: usize = 0;
                while j < stage.len()
                    invariant
                        j <= stage@.len(),
                        i < 10,
                        out@ == before + u32_be_bytes(i as u32) + join_symbols(
                            stage@.take(j as int).map_values(|sym: Vec<u8>| sym@),
                        ),
                    decreases stage@.len() - j,
                {
                    if j > 0 {
                        out.push(32);
                    }
                    let sym = &stage[j];
                    let mut k: usize = 0;
                    let ghost mid = out@;
                    while k < sym.len()
                        invariant
                            k <= sym@.len(),
                            out@ == mid + sym@.take(k as int),
                        decreases sym@.len() - k,
                    {
                        out.push(sym[k]);
                        k = k + 1;
                        assert(out@ =~= mid + sym@.take(k as int));
                    }
                    assert(sym@.take(k as int) =~= sym@);
                    proof {
                        let syms = stage@.take(j + 1).map_values(|sym: Vec<u8>| sym@);
                        assert(syms.drop_last() =~= stage@.take(j as int).map_values(
                            |sym: Vec<u8>| sym@,
                        ));
                    }
                    j = j + 1;
                    assert(out@ =~= before + u32_be_bytes(i as u32) + join_symbols(
                        stage@.take(j as int).map_values(|sym: Vec<u8>| sym@),
                    ));
                }
                out.push(0);
                assert(stage@.take(j as int) =~= stage@);
                assert(stage@.map_values(|sym: Vec<u8>| sym@) == self@[i as int]);
            }
            assert(out@ + stages_blob_from(self@, i + 1) =~= before + stages_blob_from(
                self@,
                i as int,
            ));
            i = i + 1;
        }
        assert(out@ + stages_blob_from(self@, i as int) =~= out@);
        out
    }

    /// Appends the macro-stages blob.
    pub fn write(&self, buffer: &mut BytesMut)
        requires
            self.wf(),
            bytes_of(*old(buffer)).len() + stages_blob_from(self@, 0).len() <= isize::MAX,
        ensures
            bytes_of(*final(buffer)) == bytes_of(*old(buffer)) + stages_blob_from(self@, 0),
    {
        let blob = self.blob();
        buf_extend(buffer, blob.as_slice());
    }

    /// The number of bytes the blob takes: for each non-empty stage four
    /// for its id and, for each symbol, its length and one.
    pub fn len(&self) -> (r: usize)
        requires
            self.wf(),
        ensures
            r == stages_blob_from(self@, 0).len(),
            r == stages_len_from(self@, 0),
    {
        proof {
            lemma_blob_len(self@, 0);
        }
        self.blob().len()
    }
}

impl Default for MacroStages {
    fn default() -> (r: Self)
        ensures
            r.wf(),
            r@ == no_stages(),
    {
        MacroStages::new()
    }
}

/// Option negotiation: what one end of the conversation offers.
#[derive(Debug, Clone)]
pub struct OptNeg {
    /// The milter protocol version this end speaks
    pub version: u32,
    /// Which modifications the filter may send
    pub capabilities: Capability,
    /// Which commands the MTA leaves out or sends without awaiting a reply
    pub protocol: Protocol,
    /// Which macros the filter would like to get
    pub macro_stages: MacroStages,
}

/// What negotiating `local` against `peer` yields: version, capability bits
/// and protocol bits, or nothing when the peer's version is newer.
pub open spec fn merged(local: OptNeg, peer: OptNeg) -> Option<(u32, u32, u32)> {
    if local.version < peer.version {
        None
    } else {
        Some(
            (
                local.version,
                local.capabilities@ & peer.capabilities@,
                local.protocol@ & peer.protocol@,
            ),
        )
    }
}

impl OptNeg {
    /// The protocol version this library speaks.
    pub const VERSION: u32 = 6;
    pub const CODE: u8 = CODE_OPTNEG;

    pub open spec fn view(&self) -> MessageView {
        MessageView::OptNeg {
            version: self.version,
            capabilities: self.capabilities@,
            protocol: self.protocol@,
            stages: self.macro_stages@,
        }
    }

    pub open spec fn wf(&self) -> bool {
        self.macro_stages.wf()
    }

    /// A copy holding the same options.
    pub fn duplicate(&self) -> (r: Self)
        requires
            self.wf(),
        ensures
            r.wf(),
            r.view() == self.view(),
    {
        OptNeg {
            version: self.version,
            capabilities: self.capabilities,
            protocol: self.protocol,
            macro_stages: self.macro_stages.duplicate(),
        }
    }

    /// Check whether `self` is compatible with `other` and keep what both
    /// allow: the peer may not speak a newer version than this end.
    pub fn merge_compatible(self, other: &Self) -> (r: Result<Self, CompatibilityError>)
        ensures
            self.version < other.version <==> r is Err,
            r is Err ==> r->Err_0 == (CompatibilityError::UnsupportedVersion {
                received: other.version,
                supported: self.version,
            }),
            r is Ok ==> r->Ok_0.version == self.version && r->Ok_0.capabilities@
                == self.capabilities@ & other.capabilities@ && r->Ok_0.protocol@ == self.protocol@
                & other.protocol@ && r->Ok_0.macro_stages == self.macro_stages,
            match r {
                Ok(o) => merged(self, *other) == Some(
                    (o.version, o.capabilities@, o.protocol@),
                ),
                Err(_) => merged(self, *other) is None,
            },
    {
        if self.version < other.version {
            return Err(
                CompatibilityError::UnsupportedVersion {
                    received: other.version,
                    supported: self.version,
                },
            );
        }
        let mut merged = self;
        merged.protocol = merged.protocol.merge_regarding_version(
            merged.version,
            other.protocol,
        );
        merged.capabilities = merged.capabilities.merge_regarding_version(
            merged.version,
            other.capabilities,
        );
        Ok(merged)
    }

    /// Reads version, capabilities and protocol, then the macro-stages blob.
    pub fn parse(payload: BytesMut) -> (r: Result<Self, ProtocolError>)
        ensures
            parse_optneg(bytes_of(payload)) == match r {
                Ok(m) => Ok(m.view()),
                Err(e) => Err(e.kind()),
            },
            r is Ok ==> r->Ok_0.wf(),
    {
        let ghost s = bytes_of(payload);
        let mut buffer = payload;
        let got = buf_len(&buffer);
        if got < 12 {
            return Err(not_enough("Option negotiation", "not enough bits", 12, got, buffer));
        }
        let version = buf_get_u32(&mut buffer);
        let capabilities = buf_get_u32(&mut buffer);
        assert(s.skip(4).skip(4) =~= s.skip(8));
        let protocol = buf_get_u32(&mut buffer);
        assert(s.skip(8).skip(4) =~= s.skip(12));
        let mut macro_stages = MacroStages::new();
        while buf_len(&buffer) != 0
            invariant
                macro_stages.wf(),
                s == bytes_of(payload),
                s.len() >= 12,
                version == be_u32(s),
                capabilities == be_u32(s.skip(4)),
                protocol == be_u32(s.skip(8)),
                parse_stages_into(no_stages(), s.skip(12)) == parse_stages_into(
                    macro_stages@,
                    bytes_of(buffer),
                ),
            decreases bytes_of(buffer).len(),
        {
            let ghost cur = bytes_of(buffer);
            let got = buf_len(&buffer);
            if got < 4 {
                return Err(not_enough("Option negotiation", "macro stage id cut short", 4, got, buffer));
            }
            let id = buf_get_u32(&mut buffer);
            if id >= 10 {
                return Err(invalid("Received an unknown macro stage", buffer));
            }
            let joined = match delimited(&mut buffer, 0) {
                Some(j) => j,
                None => {
                    return Err(
                        not_enough(
                            "Option negotiation",
                            "missing null byte after macro symbols",
                            1,
                            0,
                            buffer,
                        ),
                    );
                },
            };
            let symbols = split_fields_of(&joined, 32);
            macro_stages.append_symbols(id as usize, symbols);
        }
        Ok(
            OptNeg {
                version,
                capabilities: Capability::from_bits_retain(capabilities),
                protocol: Protocol::from_bits_retain(protocol),
                macro_stages,
            },
        )
    }

    pub fn write(&self, buffer: &mut BytesMut)
        requires
            self.wf(),
            bytes_of(*old(buffer)).len() + payload_of(self.view()).len() <= isize::MAX,
        ensures
            bytes_of(*final(buffer)) == bytes_of(*old(buffer)) + payload_of(self.view()),
    {
        buf_put_u32(buffer, self.version);
        buf_put_u32(buffer, self.capabilities.bits());
        buf_put_u32(buffer, self.protocol.bits());
        self.macro_stages.write(buffer);
        assert(bytes_of(*buffer) =~= bytes_of(*old(buffer)) + payload_of(self.view()));
    }

    pub fn len(&self) -> (r: usize)
        requires
            self.wf(),
        ensures
            r == capped(payload_of(self.view()).len()),
    {
        sat_add(12, self.macro_stages.len())
    }

    pub fn code(&self) -> (r: u8)
        ensures
            r == Self::CODE,
    {
        Self::CODE
    }
}

impl Default for OptNeg {
    /// Version 6, every capability, no protocol flag, no macros.
    fn default() -> (r: Self)
        ensures
            r.wf(),
            r.version == OptNeg::VERSION,
            r.capabilities@ == all_capability_bits(),
            r.protocol@ == 0,
            r.macro_stages@ == no_stages(),
    {
        OptNeg {
            version: OptNeg::VERSION,
            capabilities: Capability::all(),
            protocol: Protocol::empty(),
            macro_stages: MacroStages::new(),
        }
    }
}

} // verus!
