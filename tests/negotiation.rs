use bytes::BytesMut;
use miltr::optneg::{Capability, MacroStage, MacroStages, OptNeg, Protocol};
use miltr::server::default_option_negotiation;
use miltr::optneg::CompatibilityError;

fn opts(version: u32, caps: u32, proto: u32) -> OptNeg {
    OptNeg {
        version,
        capabilities: Capability::from_bits_retain(caps),
        protocol: Protocol::from_bits_retain(proto),
        macro_stages: MacroStages::new(),
    }
}

#[test]
fn test_create_valid() {
    let input: u32 = 0x0000_0001;
    let bitflags = Capability::from_bits(input);
    assert!(bitflags.is_some());
}

#[test]
fn test_create_invalid() {
    let input: u32 = 0x0000_0100;
    let bitflags = Capability::from_bits(input);
    assert!(bitflags.is_none());
}

#[test]
fn test_parse_optneg() {
    let mut buffer = BytesMut::new();
    buffer.extend_from_slice(&[0u8, 0, 0, 6]);
    buffer.extend_from_slice(&[0u8, 0, 0, 255]);
    buffer.extend_from_slice(&[0u8, 0, 0, 0]);
    let res = OptNeg::parse(buffer);
    assert!(res.is_ok());
    let o = res.unwrap();
    assert_eq!(o.version, 6);
    assert_eq!(o.capabilities.bits(), 255);
    assert!(OptNeg::parse(BytesMut::from_iter([0u8, 0, 0, 6])).is_err());
}

#[test]
fn test_write_optneg() {
    let mut expected = Vec::new();
    expected.extend_from_slice(&[0u8, 0, 0, 6]);
    expected.extend_from_slice(&[0u8, 0, 0, 255]);
    expected.extend_from_slice(&[0u8, 0, 0, 0]);
    let mut buffer = BytesMut::new();
    let optneg = OptNeg::default();
    optneg.write(&mut buffer);
    assert_eq!(optneg.len(), buffer.len());
    assert_eq!(optneg.code(), b'O');
    assert_eq!(expected, buffer.to_vec());
}

#[test]
fn optneg_with_macro_stages() {
    let mut optneg = OptNeg::default();
    optneg.macro_stages.with_stage(MacroStage::Helo, &["j", "{client_ptr}"]);
    optneg.macro_stages.with_stage(MacroStage::RcptTo, &["{rcpt_addr}"]);
    let mut buffer = BytesMut::new();
    optneg.write(&mut buffer);
    let mut expected = vec![0u8, 0, 0, 6, 0, 0, 0, 255, 0, 0, 0, 0];
    expected.extend_from_slice(b"\0\0\0\x01j {client_ptr}\0\0\0\0\x03{rcpt_addr}\0");
    assert_eq!(buffer.to_vec(), expected);
    assert_eq!(optneg.len(), expected.len());
    assert_eq!(optneg.macro_stages.stage(MacroStage::Helo), vec![b"j".to_vec(), b"{client_ptr}".to_vec()]);
    let parsed = OptNeg::parse(BytesMut::from_iter(expected)).unwrap();
    assert_eq!(parsed.version, 6);
    assert_eq!(
        parsed.macro_stages.stage(MacroStage::Helo),
        vec![b"j".to_vec(), b"{client_ptr}".to_vec()]
    );
    assert_eq!(parsed.macro_stages.stage(MacroStage::RcptTo), vec![b"{rcpt_addr}".to_vec()]);
    assert!(parsed.macro_stages.stage(MacroStage::Connect).is_empty());
}

#[test]
fn negotiation_merge() {
    let local = opts(6, Capability::SMFIF_ADDHDRS | Capability::SMFIF_CHGBODY, Protocol::NO_HELO);
    let peer = opts(
        6,
        Capability::SMFIF_ADDHDRS | Capability::SMFIF_ADDRCPT,
        Protocol::NO_HELO | Protocol::NR_HELO,
    );
    let merged = local.merge_compatible(&peer).expect("same version");
    assert_eq!(merged.version, 6);
    assert_eq!(merged.capabilities.bits(), Capability::SMFIF_ADDHDRS);
    assert_eq!(merged.protocol.bits(), Protocol::NO_HELO);

    let local = opts(6, Capability::SMFIF_ADDHDRS, 0);
    let newer = opts(7, 0, 0);
    match local.merge_compatible(&newer) {
        Err(CompatibilityError::UnsupportedVersion { received, supported }) => {
            assert_eq!(received, 7);
            assert_eq!(supported, 6);
        }
        Ok(_) => panic!("version 7 must be refused"),
    }
}

#[test]
fn merge_with_itself_is_identity() {
    let a = opts(6, 0x35, 0x2002);
    let b = opts(6, 0x35, 0x2002);
    let m = a.merge_compatible(&b).unwrap();
    assert_eq!(m.version, 6);
    assert_eq!(m.capabilities.bits(), 0x35);
    assert_eq!(m.protocol.bits(), 0x2002);
    let x = opts(6, 0x0f, 0x3);
    let y = opts(6, 0x3c, 0x6);
    let xy = opts(6, 0x0f, 0x3).merge_compatible(&y).unwrap();
    let yx = y.merge_compatible(&x).unwrap();
    assert_eq!(xy.capabilities.bits(), yx.capabilities.bits());
    assert_eq!(xy.protocol.bits(), yx.protocol.bits());
}

#[test]
fn default_negotiation_of_filter() {
    let theirs = opts(6, 0x13, 0x1fffff);
    let ours = default_option_negotiation(&theirs).unwrap();
    assert_eq!(ours.version, 6);
    assert_eq!(ours.capabilities.bits(), 0x13);
    assert_eq!(ours.protocol.bits(), 0);
    assert!(default_option_negotiation(&opts(7, 0, 0)).is_err());
}

#[test]
fn macro_stage_ids() {
    assert_eq!(MacroStage::Connect.as_usize(), 0);
    assert_eq!(MacroStage::Unknown.as_usize(), 9);
    assert_eq!(MacroStage::from_index(3), MacroStage::RcptTo);
    assert_eq!(MacroStage::from_index(42), MacroStage::Unknown);
}

#[test]
fn optneg_blob_errors() {
    let mut head = vec![0u8, 0, 0, 6, 0, 0, 0, 255, 0, 0, 0, 0];
    let mut short = head.clone();
    short.extend_from_slice(&[0, 0, 1]);
    assert!(matches!(OptNeg::parse(BytesMut::from_iter(short)), Err(miltr::error::ProtocolError::NotEnoughData(_))));
    let mut unknown_stage = head.clone();
    unknown_stage.extend_from_slice(b"\0\0\0\x0aj\0");
    assert!(matches!(OptNeg::parse(BytesMut::from_iter(unknown_stage)), Err(miltr::error::ProtocolError::InvalidData(_))));
    head.extend_from_slice(b"\0\0\0\x01j");
    assert!(matches!(OptNeg::parse(BytesMut::from_iter(head)), Err(miltr::error::ProtocolError::NotEnoughData(_))));
}
