//! The optional parameters of a connect PDU: a list of code, length, value items.
use crate::buffer::{buf_advance, buf_as_slice, buf_extend, buf_put_u8, bytes_of};
use crate::error::Error;
use bytes::BytesMut;
use vstd::prelude::*;

verus! {

/// Parameter code of the negotiated TPDU size.
pub const CODE_TPDU_SIZE: u8 = 0xc0;

/// Parameter code of the source transport service access point.
pub const CODE_SRC_TSAP: u8 = 0xc1;

/// Parameter code of the destination transport service access point.
pub const CODE_DST_TSAP: u8 = 0xc2;

/// Code of a content-free parameter that some devices send.
pub const CODE_UNKNOWN: u8 = 0x02;

/// A negotiated maximum TPDU size, in octets.
#[derive(Debug, Clone, Copy, PartialEq, Eq, Structural)]
pub enum TpduSize {
    L8192,
    L4096,
    L2048,
    L1024,
    L512,
    L256,
    L128,
}

/// The byte that stands for a size on the wire.
pub open spec fn tpdu_size_code(z: TpduSize) -> u8 {
    match z {
        TpduSize::L8192 => 0x0d,
        TpduSize::L4096 => 0x0c,
        TpduSize::L2048 => 0x0b,
        TpduSize::L1024 => 0x0a,
        TpduSize::L512 => 0x09,
        TpduSize::L256 => 0x08,
        TpduSize::L128 => 0x07,
    }
}

/// The size that a wire byte stands for, if any.
pub open spec fn tpdu_size_of_code(b: u8) -> Option<TpduSize> {
    if b == 0x0d {
        Some(TpduSize::L8192)
    } else if b == 0x0c {
        Some(TpduSize::L4096)
    } else if b == 0x0b {
        Some(TpduSize::L2048)
    } else if b == 0x0a {
        Some(TpduSize::L1024)
    } else if b == 0x09 {
        Some(TpduSize::L512)
    } else if b == 0x08 {
        Some(TpduSize::L256)
    } else if b == 0x07 {
        Some(TpduSize::L128)
    } else {
        None
    }
}

/// The number of octets a size stands for.
pub open spec fn tpdu_size_octets(z: TpduSize) -> u16 {
    match z {
        TpduSize::L8192 => 8192,
        TpduSize::L4096 => 4096,
        TpduSize::L2048 => 2048,
        TpduSize::L1024 => 1024,
        TpduSize::L512 => 512,
        TpduSize::L256 => 256,
        TpduSize::L128 => 128,
    }
}

impl TpduSize {
    /// The number of octets this size stands for.
    pub fn pdu_ref(&self) -> (r: u16)
        ensures
            r == tpdu_size_octets(*self),
    {
        match self {
            TpduSize::L8192 => 8192,
            TpduSize::L4096 => 4096,
            TpduSize::L2048 => 2048,
            TpduSize::L1024 => 1024,
            TpduSize::L512 => 512,
            TpduSize::L256 => 256,
            TpduSize::L128 => 128,
        }
    }

    /// The byte that stands for this size on the wire.
    pub fn code(&self) -> (r: u8)
        ensures
            r == tpdu_size_code(*self),
    {
        match self {
            TpduSize::L8192 => 0x0d,
            TpduSize::L4096 => 0x0c,
            TpduSize::L2048 => 0x0b,
            TpduSize::L1024 => 0x0a,
            TpduSize::L512 => 0x09,
            TpduSize::L256 => 0x08,
            TpduSize::L128 => 0x07,
        }
    }

    /// The size that a wire byte stands for; `InvalidEnumValue` for any other byte.
    pub fn from_code(b: u8) -> (r: Result<TpduSize, Error>)
        ensures
            match tpdu_size_of_code(b) {
                Some(z) => r == Ok::<TpduSize, Error>(z),
                None => r == Err::<TpduSize, Error>(Error::InvalidEnumValue(b)),
            },
    {
        if b == 0x0d {
            Ok(TpduSize::L8192)
        } else if b == 0x0c {
            Ok(TpduSize::L4096)
        } else if b == 0x0b {
            Ok(TpduSize::L2048)
        } else if b == 0x0a {
            Ok(TpduSize::L1024)
        } else if b == 0x09 {
            Ok(TpduSize::L512)
        } else if b == 0x08 {
            Ok(TpduSize::L256)
        } else if b == 0x07 {
            Ok(TpduSize::L128)
        } else {
            Err(Error::InvalidEnumValue(b))
        }
    }
}

/// One connect parameter.
#[derive(Debug, PartialEq, Eq)]
pub enum Parameter {
    /// Negotiated maximum TPDU size, code 0xc0.
    TpduSize(TpduSize),
    /// Source transport service access point, code 0xc1.
    SrcTsap(Vec<u8>),
    /// Destination transport service access point, code 0xc2.
    DstTsap(Vec<u8>),
    /// A vendor parameter with code 0x02; its content is not kept.
    Unknown,
}

/// A parameter as a mathematical value.
pub enum ParameterView {
    TpduSize(TpduSize),
    SrcTsap(Seq<u8>),
    DstTsap(Seq<u8>),
    Unknown,
}

impl View for Parameter {
    type V = ParameterView;

    open spec fn view(&self) -> ParameterView {
        match self {
            Parameter::TpduSize(z) => ParameterView::TpduSize(*z),
            Parameter::SrcTsap(d) => ParameterView::SrcTsap(d@),
            Parameter::DstTsap(d) => ParameterView::DstTsap(d@),
            Parameter::Unknown => ParameterView::Unknown,
        }
    }
}

/// A parameter fits its one-byte length field.
pub open spec fn parameter_wf(p: ParameterView) -> bool {
    match p {
        ParameterView::SrcTsap(d) => d.len() <= 253,
        ParameterView::DstTsap(d) => d.len() <= 253,
        _ => true,
    }
}

/// The number of bytes a parameter takes when encoded.
pub open spec fn parameter_len(p: ParameterView) -> nat {
    match p {
        ParameterView::TpduSize(_) => 3,
        ParameterView::SrcTsap(d) => 2 + d.len(),
        ParameterView::DstTsap(d) => 2 + d.len(),
        ParameterView::Unknown => 0,
    }
}

/// The bytes a parameter is encoded as: code, value length, value.
pub open spec fn parameter_bytes(p: ParameterView) -> Seq<u8> {
    match p {
        ParameterView::TpduSize(z) => seq![CODE_TPDU_SIZE, 1u8, tpdu_size_code(z)],
        ParameterView::SrcTsap(d) => seq![CODE_SRC_TSAP, d.len() as u8] + d,
        ParameterView::DstTsap(d) => seq![CODE_DST_TSAP, d.len() as u8] + d,
        ParameterView::Unknown => Seq::empty(),
    }
}

/// The parameter list ends here: nothing is left, or only a lone
/// destination-TSAP code, as some devices send.
pub open spec fn parameters_end(s: Seq<u8>) -> bool {
    s.len() == 0 || (s.len() == 1 && s[0] == CODE_DST_TSAP)
}

/// The number of bytes the parameter at the front of `s` claims: its header and value.
pub open spec fn parameter_size(s: Seq<u8>) -> nat {
    s[1] as nat + 2
}

/// What decoding the parameter at the front of `s` gives: `None` at the end
/// of the list, else the parameter or the error.
pub open spec fn parse_parameter(s: Seq<u8>) -> Result<Option<ParameterView>, Error> {
    if parameters_end(s) {
        Ok(None)
    } else if s.len() < 2 || s.len() < parameter_size(s) {
        Err(Error::InsufficientData)
    } else {
        let v = s.subrange(2, parameter_size(s) as int);
        if s[0] == CODE_TPDU_SIZE {
            if v.len() == 0 {
                Err(Error::InsufficientData)
            } else {
                match tpdu_size_of_code(v[0]) {
                    Some(z) => Ok(Some(ParameterView::TpduSize(z))),
                    None => Err(Error::InvalidEnumValue(v[0])),
                }
            }
        } else if s[0] == CODE_SRC_TSAP {
            Ok(Some(ParameterView::SrcTsap(v)))
        } else if s[0] == CODE_DST_TSAP {
            Ok(Some(ParameterView::DstTsap(v)))
        } else if s[0] == CODE_UNKNOWN {
            Ok(Some(ParameterView::Unknown))
        } else {
            Err(Error::UnsupportedParameter(s[0]))
        }
    }
}

/// The view of a decoded parameter result.
pub open spec fn parameter_result_view(r: Result<Option<Parameter>, Error>) -> Result<
    Option<ParameterView>,
    Error,
> {
    match r {
        Ok(Some(p)) => Ok(Some(p@)),
        Ok(None) => Ok(None),
        Err(e) => Err(e),
    }
}

/// Every defined size survives encoding and decoding: its byte names it
/// again, and its encoded parameter decodes to it.
pub proof fn lemma_tpdu_size_round_trip(z: TpduSize)
    ensures
        tpdu_size_of_code(tpdu_size_code(z)) == Some(z),
        parse_parameter(parameter_bytes(ParameterView::TpduSize(z))) == Ok::<
            Option<ParameterView>,
            Error,
        >(Some(ParameterView::TpduSize(z))),
{
    let b = parameter_bytes(ParameterView::TpduSize(z));
    assert(b.subrange(2, 3) =~= seq![tpdu_size_code(z)]);
}

/// A byte outside the seven defined sizes names no size, and a TPDU-size
/// parameter holding it fails to decode with an enum-value error.
pub proof fn lemma_tpdu_size_invalid(b: u8)
    requires
        b < 0x07 || b > 0x0d,
    ensures
        tpdu_size_of_code(b) is None,
        parse_parameter(seq![CODE_TPDU_SIZE, 1u8, b]) == Err::<Option<ParameterView>, Error>(
            Error::InvalidEnumValue(b),
        ),
{
    let s = seq![CODE_TPDU_SIZE, 1u8, b];
    assert(s.subrange(2, 3) =~= seq![b]);
}

/// A parameter with content, encoded and followed by anything, decodes
/// back to itself and takes exactly its own bytes.
pub proof fn lemma_parameter_round_trip(p: ParameterView, rest: Seq<u8>)
    requires
        parameter_wf(p),
        !(p is Unknown),
    ensures
        parse_parameter(parameter_bytes(p) + rest) == Ok::<Option<ParameterView>, Error>(Some(p)),
        parameter_size(parameter_bytes(p) + rest) == parameter_bytes(p).len(),
        parameter_bytes(p).len() == parameter_len(p),
{
    let b = parameter_bytes(p);
    let s = b + rest;
    match p {
        ParameterView::TpduSize(z) => {
            lemma_tpdu_size_round_trip(z);
            assert(s.subrange(2, 3) =~= seq![tpdu_size_code(z)]);
        },
        ParameterView::SrcTsap(d) => {
            assert(s.subrange(2, 2 + d.len() as int) =~= d);
        },
        ParameterView::DstTsap(d) => {
            assert(s.subrange(2, 2 + d.len() as int) =~= d);
        },
        ParameterView::Unknown => {},
    }
}

/// Copies `s[lo..hi]` into a new vector.
pub(crate) fn copy_range(s: &[u8], lo: usize, hi: usize) -> (v: Vec<u8>)
    requires
        lo <= hi <= s@.len(),
    ensures
        v@ == s@.subrange(lo as int, hi as int),
{
    let mut v: Vec<u8> = Vec::new();
    let mut i: usize = lo;
    while i < hi
        invariant
            lo <= i <= hi <= s@.len(),
            v@ == s@.subrange(lo as int, i as int),
        decreases hi - i,
    {
        v.push(s[i]);
        i = i + 1;
        assert(v@ =~= s@.subrange(lo as int, i as int));
    }
    v
}

/// Decodes the parameter that starts at `start` in `s`; on success also
/// gives the number of bytes it took.
pub(crate) fn parse_parameter_at(s: &[u8], start: usize) -> (r: Result<
    Option<(Parameter, usize)>,
    Error,
>)
    requires
        start <= s@.len(),
    ensures
        ({
            let t = s@.skip(start as int);
            match r {
                Ok(Some((p, n))) => parse_parameter(t) == Ok::<Option<ParameterView>, Error>(
                    Some(p@),
                ) && n == parameter_size(t) && n <= t.len(),
                Ok(None) => parse_parameter(t) == Ok::<Option<ParameterView>, Error>(None),
                Err(e) => parse_parameter(t) == Err::<Option<ParameterView>, Error>(e),
            }
        }),
{
    let ghost t = s@.skip(start as int);
    let rest = s.len() - start;
    if rest == 0 || (rest == 1 && s[start] == CODE_DST_TSAP) {
        return Ok(None);
    }
    if rest < 2 {
        return Err(Error::InsufficientData);
    }
    let code = s[start];
    let n = s[start + 1] as usize + 2;
    if rest < n {
        return Err(Error::InsufficientData);
    }
    assert(t.subrange(2, n as int) =~= s@.subrange(start + 2, start + n));
    let p = if code == CODE_TPDU_SIZE {
        if n == 2 {
            return Err(Error::InsufficientData);
        }
        match TpduSize::from_code(s[start + 2]) {
            Ok(z) => Parameter::TpduSize(z),
            Err(e) => return Err(e),
        }
    } else if code == CODE_SRC_TSAP {
        Parameter::SrcTsap(copy_range(s, start + 2, start + n))
    } else if code == CODE_DST_TSAP {
        Parameter::DstTsap(copy_range(s, start + 2, start + n))
    } else if code == CODE_UNKNOWN {
        Parameter::Unknown
    } else {
        return Err(Error::UnsupportedParameter(code));
    };
    Ok(Some((p, n)))
}

impl Parameter {
    pub fn new_dst_tsap(data: Vec<u8>) -> (r: Self)
        ensures
            r@ == ParameterView::DstTsap(data@),
    {
        Parameter::DstTsap(data)
    }

    pub fn new_src_tsap(data: Vec<u8>) -> (r: Self)
        ensures
            r@ == ParameterView::SrcTsap(data@),
    {
        Parameter::SrcTsap(data)
    }

    pub fn new_tpdu_size(size: TpduSize) -> (r: Self)
        ensures
            r@ == ParameterView::TpduSize(size),
    {
        Parameter::TpduSize(size)
    }

    /// The number of bytes this parameter takes when encoded.
    pub fn length(&self) -> (r: u8)
        requires
            parameter_wf(self@),
        ensures
            r as nat == parameter_len(self@),
    {
        match self {
            Parameter::TpduSize(_) => 3,
            Parameter::SrcTsap(d) => 2 + d.len() as u8,
            Parameter::DstTsap(d) => 2 + d.len() as u8,
            Parameter::Unknown => 0,
        }
    }

    /// Decodes the parameter at the front of `data` and removes its bytes.
    /// Gives `None`, leaving `data` as it is, at the end of the list; on an
    /// error `data` is left as it is too.
    pub fn decode(data: &mut BytesMut) -> (r: Result<Option<Parameter>, Error>)
        ensures
            parameter_result_view(r) == parse_parameter(bytes_of(*old(data))),
            r matches Ok(Some(_)) ==> bytes_of(*final(data)) == bytes_of(*old(data)).skip(
                parameter_size(bytes_of(*old(data))) as int,
            ),
            !(r matches Ok(Some(_))) ==> bytes_of(*final(data)) == bytes_of(*old(data)),
    {
        let s = buf_as_slice(data);
        proof {
            assert(s@.skip(0) =~= s@);
        }
        match parse_parameter_at(s, 0) {
            Ok(Some((p, n))) => {
                buf_advance(data, n);
                Ok(Some(p))
            },
            Ok(None) => Ok(None),
            Err(e) => Err(e),
        }
    }

    /// Appends the encoded parameter to `dst`; `Unknown` appends nothing.
    pub fn encode(&self, dst: &mut BytesMut)
        requires
            parameter_wf(self@),
        ensures
            bytes_of(*final(dst)) == bytes_of(*old(dst)) + parameter_bytes(self@),
    {
        match self {
            Parameter::TpduSize(z) => {
                buf_put_u8(dst, CODE_TPDU_SIZE);
                buf_put_u8(dst, 1);
                buf_put_u8(dst, z.code());
            },
            Parameter::SrcTsap(d) => {
                buf_put_u8(dst, CODE_SRC_TSAP);
                buf_put_u8(dst, d.len() as u8);
                buf_extend(dst, d.as_slice());
            },
            Parameter::DstTsap(d) => {
                buf_put_u8(dst, CODE_DST_TSAP);
                buf_put_u8(dst, d.len() as u8);
                buf_extend(dst, d.as_slice());
            },
            Parameter::Unknown => {},
        }
        assert(bytes_of(*dst) =~= bytes_of(*old(dst)) + parameter_bytes(self@));
    }
}

} // verus!
