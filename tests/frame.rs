use bytes::BytesMut;
use copt::{
    ConnectComm, CoptDecoder, CoptEncoder, CoptFrame, Error, Parameter, PayloadDecoder,
    PayloadEncoder, PduType, ToCoptError, TpduSize,
};

/// A payload codec that takes every byte that is left as the payload.
#[derive(Default)]
struct Raw;

#[derive(Debug)]
struct RawError;

impl ToCoptError for RawError {
    fn to_err(self) -> Error {
        Error::Other("raw payload".to_string())
    }
}

impl PayloadDecoder for Raw {
    type Item = Vec<u8>;
    type Error = RawError;

    fn decode(&mut self, src: &mut BytesMut) -> Result<Option<Vec<u8>>, RawError> {
        if src.is_empty() {
            return Ok(None);
        }
        let v = src.to_vec();
        src.clear();
        Ok(Some(v))
    }
}

impl PayloadEncoder<Vec<u8>> for Raw {
    type Error = RawError;

    fn encode(&mut self, item: Vec<u8>, dst: &mut BytesMut) -> Result<(), RawError> {
        if item.is_empty() {
            return Err(RawError);
        }
        dst.extend_from_slice(&item);
        Ok(())
    }
}

/// A payload codec that reads exactly two bytes.
struct Two;

impl PayloadDecoder for Two {
    type Item = [u8; 2];
    type Error = RawError;

    fn decode(&mut self, src: &mut BytesMut) -> Result<Option<[u8; 2]>, RawError> {
        if src.len() < 2 {
            return Ok(None);
        }
        let v = [src[0], src[1]];
        let _ = src.split_to(2);
        Ok(Some(v))
    }
}

const CONNECT_REQUEST: [u8; 14] = [
    0x0d, 0xe0, 0x00, 0x01, 0x00, 0x02, 0x00, 0xc0, 0x01, 0x0a, 0xc1, 0x02, 0x01, 0x00,
];

fn buf(bytes: &[u8]) -> BytesMut {
    let mut b = BytesMut::new();
    b.extend_from_slice(bytes);
    b
}

#[test]
fn test_normal_copt_encode_decode() {
    let mut data = buf(&[
        0x00, 0x01, 0x00, 0x02, 0x00, 0xc0, 0x01, 0x0a, 0xc1, 0x02, 0x01, 0x00,
    ]);

    let copt_frame = ConnectComm::decode(&mut data).unwrap();
    assert_eq!(copt_frame.length(), 13);
    assert_eq!(copt_frame.destination_ref, [0x00, 0x01]);
    assert_eq!(copt_frame.source_ref, [0x00, 0x02]);
    assert_eq!(copt_frame.class, 0);
    assert_eq!(copt_frame.extended_formats, false);
    assert_eq!(copt_frame.no_explicit_flow_control, false);
    assert_eq!(copt_frame.parameters.len(), 2);

    let parameters = vec![
        Parameter::TpduSize(TpduSize::L1024),
        Parameter::SrcTsap(vec![0x01, 0x00]),
    ];
    assert_eq!(copt_frame.parameters, parameters);
}

#[test]
fn test_unusual_copt_encode_decode() {
    let mut data = buf(&[
        0x00, 0x01, 0x00, 0x02, 0x00, 0x02, 0x01, 0x01, 0xc0, 0x01, 0x0a, 0xc1, 0x02, 0x01, 0x00,
        0xc2,
    ]);

    let copt_frame = ConnectComm::decode(&mut data).unwrap();
    assert_eq!(copt_frame.length(), 13);
    assert_eq!(copt_frame.destination_ref, [0x00, 0x01]);
    assert_eq!(copt_frame.source_ref, [0x00, 0x02]);
    assert_eq!(copt_frame.class, 0);
    assert_eq!(copt_frame.extended_formats, false);
    assert_eq!(copt_frame.no_explicit_flow_control, false);
    assert_eq!(copt_frame.parameters.len(), 3);

    let parameters = vec![
        Parameter::Unknown,
        Parameter::TpduSize(TpduSize::L1024),
        Parameter::SrcTsap(vec![0x01, 0x00]),
    ];
    assert_eq!(copt_frame.parameters, parameters);
}

#[test]
fn connect_request_decodes_and_encodes_back() {
    let mut src = buf(&CONNECT_REQUEST);
    src.extend_from_slice(&[0x03]);
    let frame = CoptDecoder(Raw).decode(&mut src).unwrap().unwrap();
    assert_eq!(src.as_ref(), &[0x03]);
    let expected = ConnectComm {
        destination_ref: [0x00, 0x01],
        source_ref: [0x00, 0x02],
        class: 0,
        extended_formats: false,
        no_explicit_flow_control: false,
        parameters: vec![
            Parameter::TpduSize(TpduSize::L1024),
            Parameter::SrcTsap(vec![0x01, 0x00]),
        ],
    };
    assert_eq!(frame, CoptFrame { pdu_type: PduType::ConnectRequest(expected) });
    assert_eq!(frame.length(), 13);

    let mut dst = BytesMut::new();
    CoptEncoder(Raw).encode(frame, &mut dst).unwrap();
    assert_eq!(dst.as_ref(), &CONNECT_REQUEST);
}

#[test]
fn length_byte_one_short_cuts_the_last_parameter() {
    let mut bytes = CONNECT_REQUEST;
    bytes[0] = 0x0c;
    let mut src = buf(&bytes);
    let r = CoptDecoder(Raw).decode(&mut src);
    assert!(matches!(r, Err(Error::InsufficientData)));
    assert_eq!(src.as_ref(), &[0x00]);
}

#[test]
fn connect_confirm_with_flags_round_trips() {
    let frame: CoptFrame<Vec<u8>> = CoptFrame::<Vec<u8>>::builder_of_connect()
        .destination_ref([0x12, 0x34])
        .source_ref([0x56, 0x78])
        .class(3)
        .extended_formats(true)
        .no_explicit_flow_control(true)
        .parameter(Parameter::new_tpdu_size(TpduSize::L256))
        .parameter(Parameter::new_dst_tsap(vec![0x02, 0x01]))
        .build_to_confirm();
    let mut dst = BytesMut::new();
    CoptEncoder(Raw).encode(frame, &mut dst).unwrap();
    assert_eq!(
        dst.as_ref(),
        &[0x0d, 0xd0, 0x12, 0x34, 0x56, 0x78, 0x33, 0xc0, 0x01, 0x08, 0xc2, 0x02, 0x02, 0x01]
    );
    let back = CoptDecoder(Raw).decode(&mut dst).unwrap().unwrap();
    assert_eq!(dst.len(), 0);
    let PduType::ConnectConfirm(c) = back.pdu_type else {
        panic!("expected a connect confirm");
    };
    assert_eq!(c.class, 3);
    assert!(c.extended_formats);
    assert!(c.no_explicit_flow_control);
    assert_eq!(c.parameters[1], Parameter::DstTsap(vec![0x02, 0x01]));
}

#[test]
fn every_short_prefix_needs_more_and_is_left_alone() {
    for k in 0..CONNECT_REQUEST.len() {
        let mut src = buf(&CONNECT_REQUEST[..k]);
        let r = CoptDecoder(Raw).decode(&mut src).unwrap();
        assert!(r.is_none());
        assert_eq!(src.as_ref(), &CONNECT_REQUEST[..k]);
    }
}

#[test]
fn unsupported_pdu_type_is_fatal() {
    let mut src = buf(&[0x02, 0x80, 0x00]);
    let r = CoptDecoder(Raw).decode(&mut src);
    assert!(matches!(r, Err(Error::UnsupportedPdu(0x80))));
    assert_eq!(src.as_ref(), &[0x02, 0x80, 0x00]);
}

#[test]
fn control_byte_survives_encode_and_decode() {
    for n in 0u8..=127 {
        for last in [false, true] {
            let frame = CoptFrame::builder_of_dt_data(vec![0xaa, n]).build(n, last);
            assert_eq!(frame.length(), 2);
            let mut dst = BytesMut::new();
            CoptEncoder(Raw).encode(frame, &mut dst).unwrap();
            assert_eq!(dst[0], 2);
            assert_eq!(dst[1], 0xf0);
            assert_eq!(dst[2], n | if last { 0x80 } else { 0 });
            let back = CoptDecoder(Raw).decode(&mut dst).unwrap().unwrap();
            let PduType::DtData(d) = back.pdu_type else {
                panic!("expected data");
            };
            assert_eq!(d.tpdu_number(), n);
            assert_eq!(d.last_data_unit(), last);
            assert_eq!(d.payload(), vec![0xaa, n]);
        }
    }
}

#[test]
fn data_frame_removes_only_what_the_payload_used() {
    let mut src = buf(&[0x02, 0xf0, 0x85, 0x10, 0x20, 0x30]);
    let frame = CoptDecoder(Two).decode(&mut src).unwrap().unwrap();
    assert_eq!(src.as_ref(), &[0x30]);
    let PduType::DtData(d) = frame.pdu_type else {
        panic!("expected data");
    };
    assert_eq!(d.tpdu_number(), 5);
    assert!(d.last_data_unit());
    assert_eq!(d.payload(), [0x10, 0x20]);
}

#[test]
fn data_frame_without_payload_fails() {
    let mut src = buf(&[0x02, 0xf0, 0x80]);
    let r = CoptDecoder(Raw).decode(&mut src);
    assert!(matches!(r, Err(Error::Other(_))));
    assert_eq!(src.len(), 3);
}

#[test]
fn data_frame_without_control_byte_is_insufficient() {
    let mut src = buf(&[0x01, 0xf0, 0x80]);
    let r = CoptDecoder(Raw).decode(&mut src);
    assert!(matches!(r, Err(Error::InsufficientData)));
    assert_eq!(src.len(), 3);
}

#[test]
fn inner_encoder_error_is_converted() {
    let frame = CoptFrame::builder_of_dt_data(Vec::new()).build(1, false);
    let mut dst = BytesMut::new();
    let r = CoptEncoder(Raw).encode(frame, &mut dst);
    assert!(matches!(r, Err(Error::Other(ref m)) if m == "raw payload"));
    assert_eq!(dst.as_ref(), &[0x02, 0xf0, 0x01]);
}

#[test]
fn short_connect_body_is_insufficient() {
    let mut src = buf(&[0x05, 0xe0, 0x00, 0x01, 0x00, 0x02]);
    let r = CoptDecoder(Raw).decode(&mut src);
    assert!(matches!(r, Err(Error::InsufficientData)));
    let mut body = buf(&[0x00, 0x01, 0x00, 0x02]);
    assert!(matches!(ConnectComm::decode(&mut body), Err(Error::InsufficientData)));
    assert_eq!(body.len(), 4);
}

#[test]
fn bad_parameter_in_connect_frame_is_reported() {
    let mut src = buf(&[0x08, 0xe0, 0x00, 0x01, 0x00, 0x02, 0x00, 0x99, 0x00]);
    let r = CoptDecoder(Raw).decode(&mut src);
    assert!(matches!(r, Err(Error::UnsupportedParameter(0x99))));
}

#[test]
fn zero_length_byte_never_makes_a_frame() {
    let mut src = buf(&[0x00, 0xe0, 0x00]);
    assert!(CoptDecoder(Raw).decode(&mut src).unwrap().is_none());
    assert_eq!(src.len(), 3);
}

#[test]
fn connect_length_counts_parameters() {
    let c = CoptFrame::<Vec<u8>>::builder_of_connect()
        .parameter(Parameter::new_src_tsap(vec![1, 2, 3]))
        .parameter(Parameter::Unknown)
        .build_connect_comm();
    assert_eq!(c.length(), 6 + 5);
}
