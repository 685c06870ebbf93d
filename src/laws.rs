//! What holds of the codec and the negotiation across calls, proved over the
//! model that the functions' contracts speak of.
use vstd::prelude::*;

use crate::buffer::{
    be_u16, be_u32, lemma_be_u16_of_bytes, lemma_be_u32_of_bytes, u16_be_bytes, u32_be_bytes,
};
use crate::codec::{decode_spec, encode_spec};
use crate::error::ErrorKind;
use crate::message::{
    code_of, family_byte, is_digit, join_symbols, parse_dec_u16, parse_stages_into, parse_client_payload, parse_server_payload, parse_connect, parse_optneg, parse_replycode, is_empty_code, is_inet, no_stages, nul_terminated, parse_client,
    parse_code_text, parse_header_fields, parse_server, payload_of, stages_blob_from, wire_len,
    MessageView, CODE_ABORT, CODE_ADD_HEADER, CODE_ADD_RECIPIENT, CODE_BODY,
    CODE_CHANGE_HEADER, CODE_CONNECT, CODE_CONTINUE, CODE_DATA, CODE_DELETE_RECIPIENT,
    CODE_DISCARD, CODE_END_OF_BODY, CODE_END_OF_HEADER, CODE_HEADER, CODE_HELO,
    CODE_INSERT_HEADER, CODE_MACRO, CODE_MAIL, CODE_OPTNEG, CODE_QUARANTINE, CODE_QUIT,
    CODE_QUIT_NC, CODE_RECIPIENT, CODE_REJECT, CODE_REPLACE_BODY, CODE_REPLYCODE, CODE_SKIP,
    CODE_TEMPFAIL, CODE_UNKNOWN,
};
use crate::modifications::{kept_by_caps, permits, ModificationAction};
use crate::optneg::{merged, OptNeg};
use crate::parsing::{free_of, lemma_prefix_len, prefix_len, lemma_split_delim_concat, split_delim, split_fields};

verus! {

/// The messages that the parsers give back unchanged after serialization:
/// fields that a NUL ends hold no NUL, a port is present exactly for the
/// internet families, ESMTP arguments are absent rather than empty, reply
/// codes read as their numbers, macro symbols hold no space or NUL and
/// there are ten stages of them, and a quarantine (whose parser keeps the
/// trailing NUL) is left out, as is a macro message (never encoded).
pub open spec fn round_trips(m: MessageView) -> bool {
    match m {
        MessageView::OptNeg { stages, .. } => stages.len() == 10 && symbols_plain(stages),
        MessageView::Connect { hostname, family, port, .. } => free_of(hostname, 0) && (
        port is Some <==> is_inet(family)),
        MessageView::Helo { .. } => true,
        MessageView::Mail { sender, esmtp_args } => free_of(sender, 0) && esmtp_args != Some(
            Seq::<u8>::empty(),
        ),
        MessageView::Recipient { recipient, esmtp_args } => free_of(recipient, 0) && esmtp_args
            != Some(Seq::<u8>::empty()),
        MessageView::Header { name, value } => free_of(name, 0) && free_of(value, 0),
        MessageView::Body { .. } => true,
        MessageView::Unknown { data } => free_of(data, 0),
        MessageView::Macro { .. } => false,
        MessageView::Empty { code } => is_empty_code(code),
        MessageView::Replycode { rcode, rcode_text, xcode, xcode_text, message } =>
            parse_code_text(rcode_text) == Some(rcode) && parse_code_text(xcode_text) == Some(
            xcode,
        ) && free_of(message, 0),
        MessageView::AddRecipient { recipient } => free_of(recipient, 0),
        MessageView::DeleteRecipient { recipient } => free_of(recipient, 0),
        MessageView::ReplaceBody { .. } => true,
        MessageView::AddHeader { name, value } => free_of(name, 0) && free_of(value, 0),
        MessageView::InsertHeader { name, value, .. } => free_of(name, 0) && free_of(value, 0),
        MessageView::ChangeHeader { name, value, .. } => free_of(name, 0) && free_of(value, 0),
        MessageView::Quarantine { .. } => false,
    }
}

/// No macro symbol holds a space or a NUL.
pub open spec fn symbols_plain(stages: Seq<Seq<Seq<u8>>>) -> bool {
    forall|i: int, j: int|
        0 <= i < stages.len() && 0 <= j < stages[i].len() ==> free_of(#[trigger] stages[i][j], 32)
            && free_of(stages[i][j], 0)
}

/// The stages before `i` as given, the others empty.
pub open spec fn stages_before(stages: Seq<Seq<Seq<u8>>>, i: int) -> Seq<Seq<Seq<u8>>> {
    Seq::new(10, |j: int| if j < i { stages[j] } else { Seq::<Seq<u8>>::empty() })
}

proof fn lemma_join_front(syms: Seq<Seq<u8>>)
    requires
        syms.len() >= 2,
    ensures
        join_symbols(syms) == syms[0].push(32) + join_symbols(syms.skip(1)),
    decreases syms.len(),
{
    if syms.len() == 2 {
        assert(syms.drop_last().len() == 1);
        assert(syms.skip(1).len() == 1);
        assert(join_symbols(syms.drop_last()) == syms[0]);
        assert(join_symbols(syms.skip(1)) == syms[1]);
    } else {
        let dl = syms.drop_last();
        lemma_join_front(dl);
        assert(syms.skip(1).drop_last() =~= dl.skip(1));
        assert(syms.skip(1).last() == syms.last());
        assert(dl[0] == syms[0]);
        assert(join_symbols(syms) =~= syms[0].push(32) + join_symbols(syms.skip(1)));
    }
}

proof fn lemma_join_free(syms: Seq<Seq<u8>>, d: u8)
    requires
        d != 32,
        forall|j: int| 0 <= j < syms.len() ==> free_of(#[trigger] syms[j], d),
    ensures
        free_of(join_symbols(syms), d),
    decreases syms.len(),
{
    if syms.len() >= 2 {
        let dl = syms.drop_last();
        assert forall|j: int| 0 <= j < dl.len() implies free_of(#[trigger] dl[j], d) by {
            assert(dl[j] == syms[j]);
        }
        lemma_join_free(dl, d);
        let a = join_symbols(dl);
        let b = syms.last();
        assert(free_of(b, d));
        let s = join_symbols(syms);
        assert(s =~= a.push(32) + b);
        assert forall|k: int| 0 <= k < s.len() implies s[k] != d by {
            if k < a.len() {
                assert(s[k] == a[k]);
            } else if k > a.len() {
                assert(s[k] == b[k - a.len() - 1]);
            }
        }
    } else if syms.len() == 1 {
        assert(free_of(syms[0], d));
    }
}

proof fn lemma_split_join(syms: Seq<Seq<u8>>)
    requires
        syms.len() >= 1,
        forall|j: int| 0 <= j < syms.len() ==> free_of(#[trigger] syms[j], 32),
    ensures
        split_fields(join_symbols(syms), 32) == syms,
    decreases syms.len(),
{
    if syms.len() == 1 {
        let s = syms[0];
        assert(free_of(s, 32));
        lemma_prefix_len(s, 32, s.len() as int);
        assert(seq![s] =~= syms);
    } else {
        lemma_join_front(syms);
        let rest = syms.skip(1);
        assert forall|j: int| 0 <= j < rest.len() implies free_of(#[trigger] rest[j], 32) by {
            assert(rest[j] == syms[j + 1]);
        }
        lemma_split_join(rest);
        assert(free_of(syms[0], 32));
        lemma_split_delim_concat(syms[0], 32, join_symbols(rest));
        assert(seq![syms[0]] + rest =~= syms);
    }
}

proof fn lemma_stages_round_trip(stages: Seq<Seq<Seq<u8>>>, i: int)
    requires
        stages.len() == 10,
        symbols_plain(stages),
        0 <= i <= 10,
    ensures
        parse_stages_into(stages_before(stages, i), stages_blob_from(stages, i)) == Ok::<
            Seq<Seq<Seq<u8>>>,
            ErrorKind,
        >(stages),
    decreases 10 - i,
{
    if i == 10 {
        assert(stages_before(stages, 10) =~= stages);
    } else {
        lemma_stages_round_trip(stages, i + 1);
        if stages[i].len() == 0 {
            assert(stages_before(stages, i) =~= stages_before(stages, i + 1)) by {
                assert(stages[i] =~= Seq::<Seq<u8>>::empty());
            }
        } else {
            let syms = stages[i];
            assert forall|j: int| 0 <= j < syms.len() implies free_of(#[trigger] syms[j], 32)
                && free_of(syms[j], 0) by {
                assert(free_of(stages[i][j], 32) && free_of(stages[i][j], 0));
            }
            let joined = join_symbols(syms);
            lemma_join_free(syms, 0);
            lemma_split_join(syms);
            let rest = stages_blob_from(stages, i + 1);
            let blob = stages_blob_from(stages, i);
            assert(blob == u32_be_bytes(i as u32) + nul_terminated(joined) + rest);
            lemma_be_u32_of_bytes(i as u32);
            assert(blob.take(4) =~= u32_be_bytes(i as u32));
            assert(be_u32(blob) == be_u32(blob.take(4)));
            assert(blob.skip(4) =~= joined.push(0) + rest);
            lemma_split_delim_concat(joined, 0, rest);
            let before = stages_before(stages, i);
            assert(before[i] + split_fields(joined, 32) =~= syms);
            assert(before.update(i, syms) =~= stages_before(stages, i + 1));
        }
    }
}

/// The codes that the filter's parser accepts (the MTA's messages).
pub open spec fn client_code(c: u8) -> bool {
    c == CODE_ABORT || c == CODE_QUIT || c == CODE_QUIT_NC || c == CODE_END_OF_HEADER || c
        == CODE_DATA || c == CODE_END_OF_BODY || c == CODE_OPTNEG || c == CODE_MACRO || c
        == CODE_UNKNOWN || c == CODE_CONNECT || c == CODE_HELO || c == CODE_MAIL || c
        == CODE_RECIPIENT || c == CODE_HEADER || c == CODE_BODY
}

/// The codes that the MTA's parser accepts (the filter's messages).
pub open spec fn server_code(c: u8) -> bool {
    c == CODE_ABORT || c == CODE_CONTINUE || c == CODE_DISCARD || c == CODE_REJECT || c
        == CODE_TEMPFAIL || c == CODE_SKIP || c == CODE_OPTNEG || c == CODE_REPLYCODE || c
        == CODE_ADD_RECIPIENT || c == CODE_DELETE_RECIPIENT || c == CODE_REPLACE_BODY || c
        == CODE_ADD_HEADER || c == CODE_INSERT_HEADER || c == CODE_CHANGE_HEADER || c
        == CODE_QUARANTINE
}

proof fn lemma_two_fields(a: Seq<u8>, b: Seq<u8>)
    requires
        free_of(a, 0),
        free_of(b, 0),
    ensures
        parse_header_fields(nul_terminated(a) + nul_terminated(b)) == Ok::<
            (Seq<u8>, Seq<u8>),
            ErrorKind,
        >((a, b)),
{
    lemma_split_delim_concat(a, 0, nul_terminated(b));
    lemma_split_delim_concat(b, 0, Seq::empty());
    assert(nul_terminated(b) + Seq::<u8>::empty() =~= nul_terminated(b));
}

proof fn lemma_one_field(a: Seq<u8>)
    requires
        free_of(a, 0),
    ensures
        split_delim(nul_terminated(a), 0) == Some((a, Seq::<u8>::empty())),
{
    lemma_split_delim_concat(a, 0, Seq::empty());
    assert(nul_terminated(a) + Seq::<u8>::empty() =~= nul_terminated(a));
}

proof fn lemma_indexed(index: u32, name: Seq<u8>, value: Seq<u8>)
    requires
        free_of(name, 0),
        free_of(value, 0),
    ensures
        ({
            let s = u32_be_bytes(index) + nul_terminated(name) + nul_terminated(value);
            s.len() >= 4 && be_u32(s) == index && parse_header_fields(s.skip(4)) == Ok::<
                (Seq<u8>, Seq<u8>),
                ErrorKind,
            >((name, value))
        }),
{
    let s = u32_be_bytes(index) + nul_terminated(name) + nul_terminated(value);
    lemma_be_u32_of_bytes(index);
    assert(s.skip(4) =~= nul_terminated(name) + nul_terminated(value));
    lemma_two_fields(name, value);
}

proof fn lemma_optneg_payload(
    version: u32,
    capabilities: u32,
    protocol: u32,
    stages: Seq<Seq<Seq<u8>>>,
)
    requires
        stages.len() == 10,
        symbols_plain(stages),
    ensures
        ({
            let m = MessageView::OptNeg { version, capabilities, protocol, stages };
            parse_optneg(payload_of(m)) == Ok::<MessageView, ErrorKind>(m)
        }),
{
    let p = u32_be_bytes(version) + u32_be_bytes(capabilities) + u32_be_bytes(protocol)
        + stages_blob_from(stages, 0);
    lemma_stages_round_trip(stages, 0);
    assert(stages_before(stages, 0) =~= no_stages());
    assert(p.skip(12) =~= stages_blob_from(stages, 0));
    lemma_be_u32_of_bytes(version);
    lemma_be_u32_of_bytes(capabilities);
    lemma_be_u32_of_bytes(protocol);
    assert(p.take(4) =~= u32_be_bytes(version));
    assert(p.skip(4).take(4) =~= u32_be_bytes(capabilities));
    assert(p.skip(8).take(4) =~= u32_be_bytes(protocol));
    assert(be_u32(p) == be_u32(p.take(4)));
    assert(be_u32(p.skip(4)) == be_u32(p.skip(4).take(4)));
    assert(be_u32(p.skip(8)) == be_u32(p.skip(8).take(4)));
}

proof fn lemma_connect_payload(
    hostname: Seq<u8>,
    family: crate::commands::Family,
    port: Option<u16>,
    address: Seq<u8>,
)
    requires
        round_trips(MessageView::Connect { hostname, family, port, address }),
    ensures
        ({
            let m = MessageView::Connect { hostname, family, port, address };
            parse_connect(payload_of(m)) == Ok::<MessageView, ErrorKind>(m)
        }),
{
    let m = MessageView::Connect { hostname, family, port, address };
    let p = payload_of(m);
    let pv: u16 = match port {
        Some(x) => x,
        None => 0u16,
    };
    let rest = seq![family_byte(family)] + u16_be_bytes(pv) + nul_terminated(address);
    assert(p =~= nul_terminated(hostname) + rest);
    lemma_split_delim_concat(hostname, 0, rest);
    let r2 = rest.skip(1);
    assert(r2 =~= u16_be_bytes(pv) + nul_terminated(address));
    lemma_be_u16_of_bytes(pv);
    assert(r2.take(2) =~= u16_be_bytes(pv));
    assert(be_u16(r2) == be_u16(r2.take(2)));
    assert(r2.skip(2) =~= nul_terminated(address));
    assert(nul_terminated(address).drop_last() =~= address);
}

proof fn lemma_split_delim_parts(s: Seq<u8>, d: u8, head: Seq<u8>, rest: Seq<u8>)
    requires
        split_delim(s, d) == Some((head, rest)),
    ensures
        s =~= head.push(d) + rest,
        free_of(head, d),
{
    lemma_prefix_free(s, d);
}

proof fn lemma_prefix_free(s: Seq<u8>, d: u8)
    ensures
        prefix_len(s, d) <= s.len(),
        forall|j: int| 0 <= j < prefix_len(s, d) ==> s[j] != d,
        prefix_len(s, d) < s.len() ==> s[prefix_len(s, d) as int] == d,
    decreases s.len(),
{
    if s.len() > 0 && s[0] != d {
        lemma_prefix_free(s.skip(1), d);
        assert forall|j: int| 0 <= j < prefix_len(s, d) implies s[j] != d by {
            if j > 0 {
                assert(s[j] == s.skip(1)[j - 1]);
            }
        }
    }
}

proof fn lemma_dec_text_free(a: Seq<u8>)
    requires
        parse_dec_u16(a) is Some,
    ensures
        free_of(a, 0),
        free_of(a, 46),
{
    let d = if a.len() > 0 && a[0] == 43 {
        a.skip(1)
    } else {
        a
    };
    assert forall|k: int| 0 <= k < a.len() implies a[k] != 0 && a[k] != 46 by {
        if a.len() > 0 && a[0] == 43 {
            if k > 0 {
                assert(a[k] == d[k - 1]);
                assert(is_digit(d[k - 1]));
            }
        } else {
            assert(is_digit(d[k]));
        }
    }
}

/// The text of a code that reads as numbers holds no NUL.
proof fn lemma_code_text_free(s: Seq<u8>)
    requires
        parse_code_text(s) is Some,
    ensures
        free_of(s, 0),
{
    let (a, r1) = split_delim(s, 46)->0;
    lemma_split_delim_parts(s, 46, a, r1);
    let (b, c) = split_delim(r1, 46)->0;
    lemma_split_delim_parts(r1, 46, b, c);
    lemma_dec_text_free(a);
    lemma_dec_text_free(b);
    lemma_dec_text_free(c);
    assert forall|k: int| 0 <= k < s.len() implies s[k] != 0 by {
        if k < a.len() {
            assert(s[k] == a[k]);
        } else if k > a.len() {
            let k1 = k - a.len() - 1;
            assert(s[k] == r1[k1]);
            if k1 < b.len() {
                assert(r1[k1] == b[k1]);
            } else if k1 > b.len() {
                assert(r1[k1] == c[k1 - b.len() - 1]);
            }
        }
    }
}

proof fn lemma_replycode_payload(
    rcode: Seq<u16>,
    rcode_text: Seq<u8>,
    xcode: Seq<u16>,
    xcode_text: Seq<u8>,
    message: Seq<u8>,
)
    requires
        round_trips(MessageView::Replycode { rcode, rcode_text, xcode, xcode_text, message }),
    ensures
        ({
            let m = MessageView::Replycode { rcode, rcode_text, xcode, xcode_text, message };
            parse_replycode(payload_of(m)) == Ok::<MessageView, ErrorKind>(m)
        }),
{
    let m = MessageView::Replycode { rcode, rcode_text, xcode, xcode_text, message };
    lemma_code_text_free(rcode_text);
    lemma_code_text_free(xcode_text);
    let p = payload_of(m);
    assert(p =~= nul_terminated(rcode_text) + (nul_terminated(xcode_text) + nul_terminated(
        message,
    )));
    lemma_split_delim_concat(rcode_text, 0, nul_terminated(xcode_text) + nul_terminated(message));
    lemma_split_delim_concat(xcode_text, 0, nul_terminated(message));
    lemma_one_field(message);
}

/// The payload of a message of the MTA that round-trips parses back to it.
#[verifier::spinoff_prover]
proof fn lemma_client_payload(m: MessageView)
    requires
        round_trips(m),
        client_code(code_of(m)),
    ensures
        parse_client(seq![code_of(m)] + payload_of(m)) == Ok::<MessageView, ErrorKind>(m),
{
    let p = payload_of(m);
    let s = seq![code_of(m)] + p;
    assert(s.skip(1) =~= p);
    assert(parse_client(s) == parse_client_payload(code_of(m), p));
    match m {
        MessageView::OptNeg { version, capabilities, protocol, stages } => {
            lemma_optneg_payload(version, capabilities, protocol, stages);
            assert(parse_client_payload(code_of(m), p) == Ok::<MessageView, ErrorKind>(m));
        },
        MessageView::Connect { hostname, family, port, address } => {
            lemma_connect_payload(hostname, family, port, address);
            assert(parse_client_payload(code_of(m), p) == Ok::<MessageView, ErrorKind>(m));
        },
        MessageView::Helo { helo } => {
            assert(p.drop_last() =~= helo);
            assert(parse_client_payload(code_of(m), p) == Ok::<MessageView, ErrorKind>(m));
        },
        MessageView::Mail { sender, esmtp_args } => {
            let a = match esmtp_args {
                Some(x) => x,
                None => Seq::<u8>::empty(),
            };
            lemma_split_delim_concat(sender, 0, a);
            if a.len() == 0 {
                assert(a =~= Seq::<u8>::empty());
            }
            assert(parse_client_payload(code_of(m), p) == Ok::<MessageView, ErrorKind>(m));
        },
        MessageView::Recipient { recipient, esmtp_args } => {
            let a = match esmtp_args {
                Some(x) => x,
                None => Seq::<u8>::empty(),
            };
            lemma_split_delim_concat(recipient, 0, a);
            if a.len() == 0 {
                assert(a =~= Seq::<u8>::empty());
            }
            assert(parse_client_payload(code_of(m), p) == Ok::<MessageView, ErrorKind>(m));
        },
        MessageView::Header { name, value } => {
            lemma_two_fields(name, value);
            assert(parse_client_payload(code_of(m), p) == Ok::<MessageView, ErrorKind>(m));
        },
        MessageView::Unknown { data } => {
            lemma_one_field(data);
            assert(parse_client_payload(code_of(m), p) == Ok::<MessageView, ErrorKind>(m));
        },
        _ => {},
    }
}

/// The payload of a message of the filter that round-trips parses back to it.
#[verifier::spinoff_prover]
#[verifier::rlimit(60)]
proof fn lemma_server_payload(m: MessageView)
    requires
        round_trips(m),
        server_code(code_of(m)),
    ensures
        parse_server(seq![code_of(m)] + payload_of(m)) == Ok::<MessageView, ErrorKind>(m),
{
    let p = payload_of(m);
    let s = seq![code_of(m)] + p;
    assert(s.skip(1) =~= p);
    assert(parse_server(s) == parse_server_payload(code_of(m), p));
    match m {
        MessageView::OptNeg { version, capabilities, protocol, stages } => {
            lemma_optneg_payload(version, capabilities, protocol, stages);
        },
        MessageView::Replycode { rcode, rcode_text, xcode, xcode_text, message } => {
            lemma_replycode_payload(rcode, rcode_text, xcode, xcode_text, message);
        },
        MessageView::AddRecipient { recipient } => {
            lemma_one_field(recipient);
        },
        MessageView::DeleteRecipient { recipient } => {
            lemma_one_field(recipient);
        },
        MessageView::AddHeader { name, value } => {
            lemma_two_fields(name, value);
        },
        MessageView::InsertHeader { index, name, value } => {
            lemma_indexed(index, name, value);
        },
        MessageView::ChangeHeader { index, name, value } => {
            lemma_indexed(index, name, value);
        },
        _ => {},
    }
}

/// Framing a message and decoding the frame consume the frame exactly and
/// hand back what the payload parses to.
proof fn lemma_frame(
    m: MessageView,
    max: usize,
    parse: spec_fn(Seq<u8>) -> Result<MessageView, ErrorKind>,
)
    requires
        wire_len(m) + 1 <= max,
        wire_len(m) + 1 <= u32::MAX,
    ensures
        encode_spec(m, max) is Ok,
        decode_spec(encode_spec(m, max)->Ok_0, max, parse) == (
            match parse(seq![code_of(m)] + payload_of(m)) {
                Ok(v) => Ok(Some(v)),
                Err(e) => Err(e),
            },
            Seq::<u8>::empty(),
        ),
{
    let n = payload_of(m).len();
    let frame = encode_spec(m, max)->Ok_0;
    lemma_be_u32_of_bytes((n + 1) as u32);
    assert(frame.take(4) =~= u32_be_bytes((n + 1) as u32));
    assert(be_u32(frame) == be_u32(frame.take(4)));
    assert(frame.subrange(4, 4 + be_u32(frame)) =~= seq![code_of(m)] + payload_of(m));
    assert(frame.skip(4 + be_u32(frame)) =~= Seq::<u8>::empty());
}

/// Round trip, filter side: every message of the MTA that round-trips,
/// framed under a bound that leaves room for it, decodes to itself and
/// leaves nothing buffered.
pub proof fn lemma_round_trip_client(m: MessageView, max: usize)
    requires
        round_trips(m),
        client_code(code_of(m)),
        wire_len(m) + 5 <= max,
        wire_len(m) + 1 <= u32::MAX,
    ensures
        encode_spec(m, max) is Ok,
        decode_spec(encode_spec(m, max)->Ok_0, max, |s: Seq<u8>| parse_client(s)) == (
            Ok::<Option<MessageView>, ErrorKind>(Some(m)),
            Seq::<u8>::empty(),
        ),
{
    lemma_client_payload(m);
    lemma_frame(m, max, |s: Seq<u8>| parse_client(s));
}

/// Round trip, MTA side: every message of the filter that round-trips,
/// framed under a bound that leaves room for it, decodes to itself and
/// leaves nothing buffered.
pub proof fn lemma_round_trip_server(m: MessageView, max: usize)
    requires
        round_trips(m),
        server_code(code_of(m)),
        wire_len(m) + 5 <= max,
        wire_len(m) + 1 <= u32::MAX,
    ensures
        encode_spec(m, max) is Ok,
        decode_spec(encode_spec(m, max)->Ok_0, max, |s: Seq<u8>| parse_server(s)) == (
            Ok::<Option<MessageView>, ErrorKind>(Some(m)),
            Seq::<u8>::empty(),
        ),
{
    lemma_server_payload(m);
    lemma_frame(m, max, |s: Seq<u8>| parse_server(s));
}

/// Length authority: the length prefix of a frame is one more than the
/// message's payload length, and decoding consumes exactly the prefix and
/// that many bytes, whatever follows.
pub proof fn lemma_length_authority(m: MessageView, max: usize, rest: Seq<u8>)
    requires
        encode_spec(m, max) is Ok,
    ensures
        ({
            let frame = encode_spec(m, max)->Ok_0;
            &&& be_u32(frame) == wire_len(m) + 1
            &&& frame.len() == 4 + be_u32(frame)
            &&& decode_spec(frame + rest, max, |s: Seq<u8>| parse_client(s)).1 == rest
            &&& decode_spec(frame + rest, max, |s: Seq<u8>| parse_server(s)).1 == rest
        }),
{
    let n = payload_of(m).len();
    let frame = encode_spec(m, max)->Ok_0;
    lemma_be_u32_of_bytes((n + 1) as u32);
    assert(frame.take(4) =~= u32_be_bytes((n + 1) as u32));
    assert(be_u32(frame) == be_u32(frame.take(4)));
    let all = frame + rest;
    assert(all.take(4) =~= frame.take(4));
    assert(be_u32(all) == be_u32(all.take(4)));
    assert(all.skip(4 + be_u32(all)) =~= rest);
}

/// Bound respect: a declared length over the bound is refused before any
/// payload is read, with the buffer left as it was; a frame that decodes
/// spans at most the bound and the prefix; an encoded frame does too.
pub proof fn lemma_bound_respect(
    buf: Seq<u8>,
    max: usize,
    m: MessageView,
    parse: spec_fn(Seq<u8>) -> Result<MessageView, ErrorKind>,
)
    ensures
        buf.len() >= 4 && be_u32(buf) > max ==> decode_spec(buf, max, parse) == (
            Err::<Option<MessageView>, ErrorKind>(ErrorKind::TooMuchData(be_u32(buf) as usize)),
            buf,
        ),
        decode_spec(buf, max, parse).0 is Ok && decode_spec(buf, max, parse).0->Ok_0 is Some
            ==> buf.len() - decode_spec(buf, max, parse).1.len() <= max + 4,
        encode_spec(m, max) is Ok ==> encode_spec(m, max)->Ok_0.len() <= max + 4,
{
}

/// Negotiation: merging options with themselves gives them back, and
/// between options of one version the merged bits do not depend on which
/// side merges.
pub proof fn lemma_merge_idempotent(a: OptNeg, b: OptNeg)
    ensures
        merged(a, a) == Some((a.version, a.capabilities@, a.protocol@)),
        a.version == b.version ==> merged(a, b) == merged(b, a),
{
    let (c, p) = (a.capabilities@, a.protocol@);
    let (d, q) = (b.capabilities@, b.protocol@);
    assert(c & c == c && p & p == p) by (bit_vector);
    assert(c & d == d & c && p & q == q & p) by (bit_vector);
}

/// Capability gating: a modification survives the filter exactly when the
/// capabilities hold the bit it needs (add header: add headers; replace
/// body: change body; add and delete recipient: add and delete recipients;
/// change and insert header: change headers; quarantine: quarantine).
pub proof fn lemma_capability_gating(mods: Seq<ModificationAction>, caps: u32)
    ensures
        forall|i: int|
            0 <= i < kept_by_caps(mods, caps).len() ==> permits(
                caps,
                (#[trigger] kept_by_caps(mods, caps)[i]).view(),
            ) && mods.contains(kept_by_caps(mods, caps)[i]),
        forall|i: int|
            0 <= i < mods.len() && permits(caps, (#[trigger] mods[i]).view()) ==> kept_by_caps(
                mods,
                caps,
            ).contains(mods[i]),
{
    let pred = |m: ModificationAction| permits(caps, m.view());
    mods.filter_lemma(pred);
    let kept = kept_by_caps(mods, caps);
    assert forall|i: int| 0 <= i < kept.len() implies mods.contains(#[trigger] kept[i]) by {
        assert(kept.contains(kept[i]));
        mods.lemma_filter_contains_rev(pred, kept[i]);
    }
    assert forall|i: int|
        0 <= i < mods.len() && permits(caps, (#[trigger] mods[i]).view()) implies kept_by_caps(
        mods,
        caps,
    ).contains(mods[i]) by {
        mods.lemma_filter_contains(pred, i);
    }
}

} // verus!
