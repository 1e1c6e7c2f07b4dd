//! Decoding frames from the front of a growable buffer.
use crate::buffer::{buf_advance, buf_as_slice, buf_clone, buf_split_off, buf_split_to, bytes_of};
use crate::error::{Error, ToCoptError};
use crate::packet::{
    last_data_unit_of, parse_connect, tpdu_number_of, ConnectComm, ConnectCommView, CoptFrame,
    DtData, PduType, PDU_CONNECT_CONFIRM, PDU_CONNECT_REQUEST, PDU_DT_DATA,
};
use bytes::BytesMut;
use vstd::prelude::*;

verus! {

/// The decoder of the payload that data-transfer PDUs embed. It reads one
/// payload from the front of `src`, removing the bytes it used, or gives
/// `None` when `src` holds no whole payload.
pub trait PayloadDecoder {
    type Item;

    type Error: ToCoptError;

    fn decode(&mut self, src: &mut BytesMut) -> Result<Option<Self::Item>, Self::Error>;
}

/// Decodes frames, handing the payload of data-transfer PDUs to the inner decoder.
#[derive(Default)]
pub struct CoptDecoder<D>(pub D);

/// The number of bytes the frame at the front of `s` claims, its length byte included.
pub open spec fn frame_total(s: Seq<u8>) -> nat {
    s[0] as nat + 1
}

/// `s` does not yet hold the header-declared part of a frame.
pub open spec fn frame_incomplete(s: Seq<u8>) -> bool {
    s.len() < 2 || frame_total(s) < 2 || s.len() < frame_total(s)
}

/// The connect body of the frame at the front of `s`.
pub open spec fn frame_connect_body(s: Seq<u8>) -> Seq<u8> {
    s.subrange(2, frame_total(s) as int)
}

/// What a decode result says of a connect PDU of the given type byte:
/// the body it carries, the error, or `None` for any other result.
pub open spec fn decoded_connect<F>(r: Result<Option<CoptFrame<F>>, Error>, pdu_type: u8) -> Option<
    Result<ConnectCommView, Error>,
> {
    match r {
        Ok(Some(f)) => match f.pdu_type {
            PduType::ConnectRequest(c) => if pdu_type == PDU_CONNECT_REQUEST {
                Some(Ok(c@))
            } else {
                None
            },
            PduType::ConnectConfirm(c) => if pdu_type == PDU_CONNECT_CONFIRM {
                Some(Ok(c@))
            } else {
                None
            },
            PduType::DtData(_) => None,
        },
        Ok(None) => None,
        Err(e) => Some(Err(e)),
    }
}

/// A decode result is a data-transfer PDU whose number and flag are the
/// ones control byte `b` carries.
pub open spec fn decoded_dt_data<F>(r: Result<Option<CoptFrame<F>>, Error>, b: u8) -> bool {
    match r {
        Ok(Some(f)) => match f.pdu_type {
            PduType::DtData(d) => d.tpdu_number == tpdu_number_of(b) && d.last_data_unit
                == last_data_unit_of(b),
            _ => false,
        },
        _ => false,
    }
}

/// A buffer that holds less of a frame than its declared part is
/// incomplete: decoding it gives `None` and leaves it as it is, so more
/// bytes can be appended and the decode tried again.
pub proof fn lemma_prefix_incomplete(f: Seq<u8>, k: nat)
    requires
        1 <= f.len(),
        k <= f.len(),
        k < frame_total(f),
    ensures
        frame_incomplete(f.take(k as int)),
{
    if k >= 2 {
        assert(f.take(k as int)[0] == f[0]);
    }
}

impl<D: PayloadDecoder> CoptDecoder<D> {
    /// Decodes the frame at the front of `src`.
    ///
    /// Gives `None` and leaves `src` as it is while the frame's declared
    /// part is not all there. A connect frame is removed whole and its body
    /// decoded. For a data-transfer frame the inner decoder reads the bytes
    /// after the declared part; the frame and the payload bytes it used are
    /// then removed. A payload the inner decoder cannot read from what is
    /// there is an error, since nothing bounds it at this layer.
    pub fn decode(&mut self, src: &mut BytesMut) -> (r: Result<Option<CoptFrame<D::Item>>, Error>)
        ensures
            ({
                let s = bytes_of(*old(src));
                let t = bytes_of(*final(src));
                if frame_incomplete(s) {
                    r matches Ok(None) && t == s
                } else if s[1] == PDU_CONNECT_REQUEST || s[1] == PDU_CONNECT_CONFIRM {
                    &&& decoded_connect(r, s[1]) == Some(parse_connect(frame_connect_body(s)))
                    &&& t == s.skip(frame_total(s) as int)
                } else if s[1] == PDU_DT_DATA {
                    if frame_total(s) < 3 {
                        &&& r matches Err(Error::InsufficientData)
                        &&& t == s
                    } else {
                        &&& r is Ok ==> {
                            &&& decoded_dt_data(r, s[2])
                            &&& t.len() + frame_total(s) <= s.len()
                            &&& t == s.skip(s.len() - t.len())
                        }
                        &&& r is Err ==> t == s
                    }
                } else {
                    &&& r matches Err(Error::UnsupportedPdu(b)) && b == s[1]
                    &&& t == s
                }
            }),
    {
        let s = buf_as_slice(src);
        if s.len() < 2 {
            return Ok(None);
        }
        let length = s[0] as usize + 1;
        let pdu_type = s[1];
        if s.len() < length || length < 2 {
            return Ok(None);
        }
        if pdu_type == PDU_CONNECT_REQUEST || pdu_type == PDU_CONNECT_CONFIRM {
            let ghost s0 = s@;
            let mut head = buf_split_to(src, length);
            let mut body = buf_split_off(&mut head, 2);
            proof {
                assert(bytes_of(body) =~= frame_connect_body(s0));
            }
            let c = match ConnectComm::decode(&mut body) {
                Ok(c) => c,
                Err(e) => return Err(e),
            };
            if pdu_type == PDU_CONNECT_REQUEST {
                Ok(Some(CoptFrame { pdu_type: PduType::ConnectRequest(c) }))
            } else {
                Ok(Some(CoptFrame { pdu_type: PduType::ConnectConfirm(c) }))
            }
        } else if pdu_type == PDU_DT_DATA {
            if length < 3 {
                return Err(Error::InsufficientData);
            }
            let control = s[2];
            let mut window = buf_clone(src);
            let mut sub = buf_split_off(&mut window, length);
            let pre = buf_as_slice(&sub).len();
            let payload = match self.0.decode(&mut sub) {
                Ok(Some(f)) => f,
                Ok(None) => return Err(Error::Other("decode fail".to_owned())),
                Err(e) => return Err(e.to_err()),
            };
            let post = buf_as_slice(&sub).len();
            if post > pre {
                return Err(Error::Other("inner decoder grew its input".to_owned()));
            }
            let used = pre - post;
            buf_advance(src, length + used);
            Ok(
                Some(
                    CoptFrame {
                        pdu_type: PduType::DtData(
                            DtData {
                                tpdu_number: control & 0x7f,
                                last_data_unit: control & 0x80 != 0,
                                payload,
                            },
                        ),
                    },
                ),
            )
        } else {
            Err(Error::UnsupportedPdu(pdu_type))
        }
    }
}

} // verus!
