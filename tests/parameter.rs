use bytes::BytesMut;
use copt::{Error, Parameter, TpduSize};

#[test]
fn test_decode_unknown0x02_parameter() {
    let mut data = BytesMut::new();
    data.extend_from_slice(&[0x02, 0x01, 0x01]);

    let parameter = Parameter::decode(&mut data).unwrap().unwrap();
    assert_eq!(parameter, Parameter::Unknown);
    assert_eq!(parameter.length(), 0);

    let mut buf = BytesMut::new();
    parameter.encode(&mut buf);
    assert_eq!(buf.len(), 0);
}

#[test]
fn test_encode_unknown0x02_parameter() {
    let parameter = Parameter::Unknown;
    let mut buf = BytesMut::new();
    parameter.encode(&mut buf);
    assert_eq!(buf.len(), 0);
}

#[test]
fn test_decode_unusual_0xc2_only() {
    let mut data = BytesMut::new();
    data.extend_from_slice(&[0xc2]);

    let parameter = Parameter::decode(&mut data).unwrap();
    assert_eq!(parameter, None);
}

#[test]
fn test_encode_decode_tpdu_size() {
    let mut data = BytesMut::new();
    data.extend_from_slice(&[0xc0, 0x01, 0x0a]);

    let parameter = Parameter::decode(&mut data).unwrap().unwrap();
    assert_eq!(parameter, Parameter::TpduSize(TpduSize::L1024));
    assert_eq!(parameter.length(), 3);

    let mut buf = BytesMut::new();
    parameter.encode(&mut buf);
    assert_eq!(buf.as_ref(), &[0xc0, 0x01, 0x0a]);
}

#[test]
fn test_encode_decode_src_tsap() {
    let mut data = BytesMut::new();
    data.extend_from_slice(&[0xc1, 0x02, 0x01, 0x00]);

    let parameter = Parameter::decode(&mut data).unwrap().unwrap();
    assert_eq!(parameter, Parameter::SrcTsap(vec![0x01, 0x00]));
    assert_eq!(parameter.length(), 4);

    let mut buf = BytesMut::new();
    parameter.encode(&mut buf);
    assert_eq!(buf.as_ref(), &[0xc1, 0x02, 0x01, 0x00]);
}

#[test]
fn decode_removes_only_the_parameter() {
    let mut data = BytesMut::new();
    data.extend_from_slice(&[0xc2, 0x01, 0x07, 0xc0, 0x01, 0x09]);
    let parameter = Parameter::decode(&mut data).unwrap().unwrap();
    assert_eq!(parameter, Parameter::DstTsap(vec![0x07]));
    assert_eq!(data.as_ref(), &[0xc0, 0x01, 0x09]);
    let parameter = Parameter::decode(&mut data).unwrap().unwrap();
    assert_eq!(parameter, Parameter::TpduSize(TpduSize::L512));
    assert_eq!(data.len(), 0);
    assert_eq!(Parameter::decode(&mut data).unwrap(), None);
}

#[test]
fn vendor_quirk_leaves_the_lone_code() {
    let mut data = BytesMut::new();
    data.extend_from_slice(&[0xc2]);
    assert_eq!(Parameter::decode(&mut data).unwrap(), None);
    assert_eq!(data.as_ref(), &[0xc2]);
}

#[test]
fn empty_buffer_ends_the_list() {
    let mut data = BytesMut::new();
    assert_eq!(Parameter::decode(&mut data).unwrap(), None);
}

#[test]
fn every_undefined_size_byte_is_an_enum_error() {
    for b in 0u8..=255 {
        let mut data = BytesMut::new();
        data.extend_from_slice(&[0xc0, 0x01, b]);
        let r = Parameter::decode(&mut data);
        if (0x07..=0x0d).contains(&b) {
            let p = r.unwrap().unwrap();
            let mut buf = BytesMut::new();
            p.encode(&mut buf);
            assert_eq!(buf.as_ref(), &[0xc0, 0x01, b]);
        } else {
            assert!(matches!(r, Err(Error::InvalidEnumValue(x)) if x == b));
            assert_eq!(data.as_ref(), &[0xc0, 0x01, b]);
        }
    }
}

#[test]
fn sizes_and_codes() {
    let all = [
        (TpduSize::L8192, 8192u16, 0x0du8),
        (TpduSize::L4096, 4096, 0x0c),
        (TpduSize::L2048, 2048, 0x0b),
        (TpduSize::L1024, 1024, 0x0a),
        (TpduSize::L512, 512, 0x09),
        (TpduSize::L256, 256, 0x08),
        (TpduSize::L128, 128, 0x07),
    ];
    for (z, octets, code) in all {
        assert_eq!(z.pdu_ref(), octets);
        assert_eq!(z.code(), code);
        assert_eq!(TpduSize::from_code(code).unwrap(), z);
    }
    assert!(matches!(TpduSize::from_code(0x0e), Err(Error::InvalidEnumValue(0x0e))));
}

#[test]
fn short_header_is_insufficient() {
    let mut data = BytesMut::new();
    data.extend_from_slice(&[0xc1]);
    assert!(matches!(Parameter::decode(&mut data), Err(Error::InsufficientData)));
}

#[test]
fn short_value_is_insufficient() {
    let mut data = BytesMut::new();
    data.extend_from_slice(&[0xc1, 0x05, 0x01, 0x02]);
    assert!(matches!(Parameter::decode(&mut data), Err(Error::InsufficientData)));
    assert_eq!(data.len(), 4);
}

#[test]
fn empty_tpdu_size_value_is_insufficient() {
    let mut data = BytesMut::new();
    data.extend_from_slice(&[0xc0, 0x00]);
    assert!(matches!(Parameter::decode(&mut data), Err(Error::InsufficientData)));
}

#[test]
fn unknown_code_is_unsupported() {
    let mut data = BytesMut::new();
    data.extend_from_slice(&[0x55, 0x00]);
    assert!(matches!(Parameter::decode(&mut data), Err(Error::UnsupportedParameter(0x55))));
}

#[test]
fn constructors_and_dst_tsap_encoding() {
    let p = Parameter::new_dst_tsap(vec![0x03, 0x01]);
    assert_eq!(p, Parameter::DstTsap(vec![0x03, 0x01]));
    assert_eq!(p.length(), 4);
    let mut buf = BytesMut::new();
    buf.extend_from_slice(&[0xaa]);
    p.encode(&mut buf);
    assert_eq!(buf.as_ref(), &[0xaa, 0xc2, 0x02, 0x03, 0x01]);
    assert_eq!(Parameter::new_src_tsap(vec![]), Parameter::SrcTsap(vec![]));
    assert_eq!(Parameter::new_tpdu_size(TpduSize::L128), Parameter::TpduSize(TpduSize::L128));
}
