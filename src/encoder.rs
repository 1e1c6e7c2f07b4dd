//! Encoding frames onto the end of a growable buffer.
use crate::buffer::{buf_as_slice, buf_extend, buf_new, buf_put_u8, bytes_of};
use crate::error::{Error, ToCoptError};
use crate::decoder::{frame_connect_body, frame_incomplete, frame_total};
use crate::packet::{
    last_data_unit_of, lemma_connect_round_trip, lemma_control_byte_round_trip,
    lemma_parameters_bytes_len, parse_connect, tpdu_number_of, ConnectCommView,
    connect_bytes, control_byte, pdu_len, pdu_wf, CoptFrame, PduType, PDU_CONNECT_CONFIRM,
    PDU_CONNECT_REQUEST, PDU_DT_DATA,
};
use bytes::BytesMut;
use vstd::prelude::*;

verus! {

/// The encoder of the payload that data-transfer PDUs embed: it appends
/// one payload to `dst`.
pub trait PayloadEncoder<F> {
    type Error: ToCoptError;

    fn encode(&mut self, item: F, dst: &mut BytesMut) -> Result<(), Self::Error>;
}

/// Encodes frames, handing the payload of data-transfer PDUs to the inner encoder.
#[derive(Default)]
pub struct CoptEncoder<E>(pub E);

/// The header a frame is encoded with, before the connect body or the payload.
pub open spec fn frame_header<F>(p: PduType<F>) -> Seq<u8> {
    match p {
        PduType::ConnectRequest(_) => seq![pdu_len(p) as u8, PDU_CONNECT_REQUEST],
        PduType::ConnectConfirm(_) => seq![pdu_len(p) as u8, PDU_CONNECT_CONFIRM],
        PduType::DtData(d) => seq![
            pdu_len(p) as u8,
            PDU_DT_DATA,
            control_byte(d.tpdu_number, d.last_data_unit),
        ],
    }
}

/// The bytes a PDU's encoding starts with: its header, then the connect
/// body, or for a data-transfer PDU the given payload bytes.
pub open spec fn frame_bytes<F>(p: PduType<F>, payload: Seq<u8>) -> Seq<u8> {
    match p {
        PduType::DtData(_) => frame_header(p) + payload,
        PduType::ConnectRequest(c) => frame_header(p) + connect_bytes(c@),
        PduType::ConnectConfirm(c) => frame_header(p) + connect_bytes(c@),
    }
}

/// Every parameter of a connect PDU has content (none is `Unknown`).
pub open spec fn parameters_have_content<F>(p: PduType<F>) -> bool {
    match p {
        PduType::DtData(_) => true,
        PduType::ConnectRequest(c) => forall|i: int|
            0 <= i < c@.parameters.len() ==> !(#[trigger] c@.parameters[i] is Unknown),
        PduType::ConnectConfirm(c) => forall|i: int|
            0 <= i < c@.parameters.len() ==> !(#[trigger] c@.parameters[i] is Unknown),
    }
}

/// Decoding what encoding wrote gives the frame back. A connect frame is
/// complete, spans exactly its declared length, and its body decodes to
/// the encoded body, provided every parameter has content. A data-transfer
/// frame declares three header bytes and its control byte gives back the
/// TPDU number and the last-data-unit flag, whatever payload follows.
pub proof fn lemma_frame_round_trip<F>(p: PduType<F>, payload: Seq<u8>)
    requires
        pdu_wf(p),
        parameters_have_content(p),
    ensures
        ({
            let s = frame_bytes(p, payload);
            &&& !frame_incomplete(s)
            &&& s[1] == frame_header(p)[1]
            &&& match p {
                PduType::DtData(d) => {
                    &&& frame_total(s) == 3
                    &&& tpdu_number_of(s[2]) == d.tpdu_number
                    &&& last_data_unit_of(s[2]) == d.last_data_unit
                },
                PduType::ConnectRequest(c) => {
                    &&& frame_total(s) == s.len()
                    &&& parse_connect(frame_connect_body(s)) == Ok::<ConnectCommView, Error>(c@)
                },
                PduType::ConnectConfirm(c) => {
                    &&& frame_total(s) == s.len()
                    &&& parse_connect(frame_connect_body(s)) == Ok::<ConnectCommView, Error>(c@)
                },
            }
        }),
{
    let s = frame_bytes(p, payload);
    match p {
        PduType::DtData(d) => {
            lemma_control_byte_round_trip(d.tpdu_number, d.last_data_unit);
        },
        PduType::ConnectRequest(c) => {
            lemma_parameters_bytes_len(c@.parameters);
            lemma_connect_round_trip(c@);
            assert(frame_connect_body(s) =~= connect_bytes(c@));
        },
        PduType::ConnectConfirm(c) => {
            lemma_parameters_bytes_len(c@.parameters);
            lemma_connect_round_trip(c@);
            assert(frame_connect_body(s) =~= connect_bytes(c@));
        },
    }
}

impl<E> CoptEncoder<E> {
    /// Appends the encoded frame to `dst`: length byte, type byte, then the
    /// connect body, or the control byte and the payload as the inner
    /// encoder writes it. Only the inner encoder can fail; then `dst` ends
    /// with the header and no payload bytes.
    pub fn encode<F>(&mut self, item: CoptFrame<F>, dst: &mut BytesMut) -> (r: Result<(), Error>) where
        E: PayloadEncoder<F>,
        requires
            pdu_wf(item.pdu_type),
        ensures
            ({
                let s = bytes_of(*old(dst));
                let t = bytes_of(*final(dst));
                let head = s + frame_header(item.pdu_type);
                match item.pdu_type {
                    PduType::ConnectRequest(c) => r is Ok && t == head + connect_bytes(c@),
                    PduType::ConnectConfirm(c) => r is Ok && t == head + connect_bytes(c@),
                    PduType::DtData(_) => if r is Ok {
                        head.len() <= t.len() && t.take(head.len() as int) == head
                    } else {
                        t == head
                    },
                }
            }),
    {
        let length = item.length();
        buf_put_u8(dst, length);
        match item.pdu_type {
            PduType::ConnectRequest(c) => {
                buf_put_u8(dst, PDU_CONNECT_REQUEST);
                c.encode(dst);
                Ok(())
            },
            PduType::ConnectConfirm(c) => {
                buf_put_u8(dst, PDU_CONNECT_CONFIRM);
                c.encode(dst);
                Ok(())
            },
            PduType::DtData(d) => {
                buf_put_u8(dst, PDU_DT_DATA);
                let merge: u8 = d.tpdu_number | if d.last_data_unit {
                    0x80
                } else {
                    0
                };
                buf_put_u8(dst, merge);
                let ghost head = bytes_of(*dst);
                let mut payload = buf_new();
                match self.0.encode(d.payload, &mut payload) {
                    Ok(()) => {},
                    Err(e) => return Err(e.to_err()),
                }
                buf_extend(dst, buf_as_slice(&payload));
                assert(bytes_of(*dst).take(head.len() as int) =~= head);
                Ok(())
            },
        }
    }
}

} // verus!
