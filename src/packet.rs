//! The PDUs and the frame that carries one of them.
use crate::buffer::{buf_advance, buf_as_slice, buf_extend, buf_put_u8, bytes_of};
use crate::error::Error;
use crate::parameter::{
    lemma_parameter_round_trip, parameter_bytes, parameters_end, parameter_len, parameter_size, parameter_wf, parse_parameter,
    parse_parameter_at, Parameter, ParameterView,
};
use bytes::BytesMut;
use vstd::prelude::*;

verus! {

/// Type byte of a connect-request PDU.
pub const PDU_CONNECT_REQUEST: u8 = 0xe0;

/// Type byte of a connect-confirm PDU.
pub const PDU_CONNECT_CONFIRM: u8 = 0xd0;

/// Type byte of a data-transfer PDU.
pub const PDU_DT_DATA: u8 = 0xf0;

/// One frame: exactly one PDU.
#[derive(Debug, PartialEq, Eq)]
pub struct CoptFrame<F> {
    pub pdu_type: PduType<F>,
}

/// The three kinds of PDU.
#[derive(Debug, PartialEq, Eq)]
pub enum PduType<F> {
    ConnectRequest(ConnectComm),
    ConnectConfirm(ConnectComm),
    DtData(DtData<F>),
}

/// A data-transfer PDU with its embedded payload.
#[derive(Debug, PartialEq, Eq)]
pub struct DtData<F> {
    /// Sequence number, 0 to 127.
    pub tpdu_number: u8,
    /// Whether this is the last TPDU of a message.
    pub last_data_unit: bool,
    pub payload: F,
}

/// The control byte of a data-transfer PDU: the flag in bit 7, the number in bits 0 to 6.
pub open spec fn control_byte(tpdu_number: u8, last_data_unit: bool) -> u8 {
    (tpdu_number | (if last_data_unit { 0x80u8 } else { 0u8 })) as u8
}

/// The TPDU number a control byte carries.
pub open spec fn tpdu_number_of(b: u8) -> u8 {
    (b & 0x7fu8) as u8
}

/// The last-data-unit flag a control byte carries.
pub open spec fn last_data_unit_of(b: u8) -> bool {
    b & 0x80u8 != 0u8
}

/// A PDU that can be encoded.
pub open spec fn pdu_wf<F>(p: PduType<F>) -> bool {
    match p {
        PduType::ConnectRequest(c) => connect_wf(c@),
        PduType::ConnectConfirm(c) => connect_wf(c@),
        PduType::DtData(d) => d.tpdu_number < 128,
    }
}

/// The PDU length byte: the connect body's length, or 2 for a data-transfer
/// PDU (type and control byte; the payload is not counted).
pub open spec fn pdu_len<F>(p: PduType<F>) -> nat {
    match p {
        PduType::ConnectRequest(c) => 6 + parameters_len(c@.parameters),
        PduType::ConnectConfirm(c) => 6 + parameters_len(c@.parameters),
        PduType::DtData(_) => 2,
    }
}

impl<F> CoptFrame<F> {
    /// The PDU length byte of this frame.
    pub fn length(&self) -> (r: u8)
        requires
            pdu_wf(self.pdu_type),
        ensures
            r as nat == pdu_len(self.pdu_type),
    {
        self.pdu_type.length()
    }
}

impl<F> PduType<F> {
    /// The PDU length byte of this PDU.
    pub fn length(&self) -> (r: u8)
        requires
            pdu_wf(*self),
        ensures
            r as nat == pdu_len(*self),
    {
        match self {
            PduType::ConnectRequest(c) => c.length(),
            PduType::ConnectConfirm(c) => c.length(),
            PduType::DtData(_) => 2,
        }
    }
}

impl<F> DtData<F> {
    pub fn tpdu_number(&self) -> (r: u8)
        ensures
            r == self.tpdu_number,
    {
        self.tpdu_number
    }

    pub fn last_data_unit(&self) -> (r: bool)
        ensures
            r == self.last_data_unit,
    {
        self.last_data_unit
    }

    pub fn payload(self) -> (r: F)
        ensures
            r == self.payload,
    {
        self.payload
    }
}

/// The body of a connect-request or connect-confirm PDU.
#[derive(Debug, PartialEq, Eq)]
pub struct ConnectComm {
    pub destination_ref: [u8; 2],
    pub source_ref: [u8; 2],
    /// Transport protocol class, a 4-bit value.
    pub class: u8,
    pub extended_formats: bool,
    pub no_explicit_flow_control: bool,
    /// The parameters, in the order they came or are to be sent.
    pub parameters: Vec<Parameter>,
}

/// A connect body as a mathematical value.
pub struct ConnectCommView {
    pub destination_ref: [u8; 2],
    pub source_ref: [u8; 2],
    pub class: u8,
    pub extended_formats: bool,
    pub no_explicit_flow_control: bool,
    pub parameters: Seq<ParameterView>,
}

impl View for ConnectComm {
    type V = ConnectCommView;

    open spec fn view(&self) -> ConnectCommView {
        ConnectCommView {
            destination_ref: self.destination_ref,
            source_ref: self.source_ref,
            class: self.class,
            extended_formats: self.extended_formats,
            no_explicit_flow_control: self.no_explicit_flow_control,
            parameters: self.parameters@.map_values(|p: Parameter| p@),
        }
    }
}

/// The summed encoded length of a list of parameters.
pub open spec fn parameters_len(ps: Seq<ParameterView>) -> nat
    decreases ps.len(),
{
    if ps.len() == 0 {
        0
    } else {
        parameter_len(ps[0]) + parameters_len(ps.skip(1))
    }
}

/// The encoded parameters, one after another.
pub open spec fn parameters_bytes(ps: Seq<ParameterView>) -> Seq<u8>
    decreases ps.len(),
{
    if ps.len() == 0 {
        Seq::empty()
    } else {
        parameter_bytes(ps[0]) + parameters_bytes(ps.skip(1))
    }
}

/// The flags byte: class in the high nibble, extended formats in bit 1,
/// no explicit flow control in bit 0.
pub open spec fn flags_byte(class: u8, extended_formats: bool, no_explicit_flow_control: bool) -> u8 {
    ((class << 4u8) | (if extended_formats { 2u8 } else { 0u8 }) | (if no_explicit_flow_control {
        1u8
    } else {
        0u8
    })) as u8
}

/// A connect body that can be encoded: the class fits four bits, every
/// parameter fits its length byte, and the frame length fits one byte.
pub open spec fn connect_wf(c: ConnectCommView) -> bool {
    &&& c.class < 16
    &&& forall|i: int| 0 <= i < c.parameters.len() ==> parameter_wf(#[trigger] c.parameters[i])
    &&& 6 + parameters_len(c.parameters) <= 255
}

/// The bytes a connect body is encoded as.
pub open spec fn connect_bytes(c: ConnectCommView) -> Seq<u8> {
    seq![
        c.destination_ref[0],
        c.destination_ref[1],
        c.source_ref[0],
        c.source_ref[1],
        flags_byte(c.class, c.extended_formats, c.no_explicit_flow_control),
    ] + parameters_bytes(c.parameters)
}

/// Prepends `a` to the list that `r` holds, if it holds one.
pub open spec fn prepend(a: Seq<ParameterView>, r: Result<Seq<ParameterView>, Error>) -> Result<
    Seq<ParameterView>,
    Error,
> {
    match r {
        Ok(ps) => Ok(a + ps),
        Err(e) => Err(e),
    }
}

/// What decoding a whole parameter list gives.
pub open spec fn parse_parameters(s: Seq<u8>) -> Result<Seq<ParameterView>, Error>
    decreases s.len(),
{
    match parse_parameter(s) {
        Ok(Some(p)) => prepend(seq![p], parse_parameters(s.skip(parameter_size(s) as int))),
        Ok(None) => Ok(Seq::empty()),
        Err(e) => Err(e),
    }
}

/// What decoding a connect body gives.
pub open spec fn parse_connect(s: Seq<u8>) -> Result<ConnectCommView, Error> {
    if s.len() < 5 {
        Err(Error::InsufficientData)
    } else {
        match parse_parameters(s.skip(5)) {
            Ok(ps) => Ok(
                ConnectCommView {
                    destination_ref: [s[0], s[1]],
                    source_ref: [s[2], s[3]],
                    class: s[4] >> 4u8,
                    extended_formats: (s[4] >> 1u8) & 1u8 == 1u8,
                    no_explicit_flow_control: s[4] & 1u8 == 1u8,
                    parameters: ps,
                },
            ),
            Err(e) => Err(e),
        }
    }
}

/// The view of a decoded connect body.
pub open spec fn connect_result_view(r: Result<ConnectComm, Error>) -> Result<ConnectCommView, Error> {
    match r {
        Ok(c) => Ok(c@),
        Err(e) => Err(e),
    }
}

pub proof fn lemma_parameters_len_push(ps: Seq<ParameterView>, p: ParameterView)
    ensures
        parameters_len(ps.push(p)) == parameters_len(ps) + parameter_len(p),
    decreases ps.len(),
{
    reveal_with_fuel(parameters_len, 2);
    reveal_with_fuel(parameters_bytes, 2);
    if ps.len() > 0 {
        assert(ps.push(p)[0] == ps[0]);
        assert(ps.push(p).skip(1) =~= ps.skip(1).push(p));
        lemma_parameters_len_push(ps.skip(1), p);
    } else {
        assert(ps.push(p)[0] == p);
        assert(ps.push(p).skip(1) =~= Seq::<ParameterView>::empty());
    }
}

pub proof fn lemma_parameters_len_prefix(ps: Seq<ParameterView>, k: int)
    requires
        0 <= k <= ps.len(),
    ensures
        parameters_len(ps.take(k)) <= parameters_len(ps),
    decreases ps.len() - k,
{
    if k < ps.len() {
        assert(ps.take(k + 1) =~= ps.take(k).push(ps[k]));
        lemma_parameters_len_push(ps.take(k), ps[k]);
        lemma_parameters_len_prefix(ps, k + 1);
    } else {
        assert(ps.take(k) =~= ps);
    }
}

pub proof fn lemma_parameters_bytes_push(ps: Seq<ParameterView>, p: ParameterView)
    ensures
        parameters_bytes(ps.push(p)) == parameters_bytes(ps) + parameter_bytes(p),
    decreases ps.len(),
{
    reveal_with_fuel(parameters_len, 2);
    reveal_with_fuel(parameters_bytes, 2);
    if ps.len() > 0 {
        assert(ps.push(p)[0] == ps[0]);
        assert(ps.push(p).skip(1) =~= ps.skip(1).push(p));
        lemma_parameters_bytes_push(ps.skip(1), p);
        assert(parameters_bytes(ps.push(p)) =~= parameters_bytes(ps) + parameter_bytes(p));
    } else {
        assert(ps.push(p)[0] == p);
        assert(ps.push(p).skip(1) =~= Seq::<ParameterView>::empty());
        assert(parameters_bytes(ps.push(p)) =~= parameters_bytes(ps) + parameter_bytes(p));
    }
}

/// The flags byte gives back the class, when it fits four bits, and both flags.
pub proof fn lemma_flags_round_trip(class: u8, extended_formats: bool, no_explicit_flow_control: bool)
    requires
        class < 16,
    ensures
        flags_byte(class, extended_formats, no_explicit_flow_control) >> 4u8 == class,
        ((flags_byte(class, extended_formats, no_explicit_flow_control) >> 1u8) & 1u8 == 1u8)
            == extended_formats,
        (flags_byte(class, extended_formats, no_explicit_flow_control) & 1u8 == 1u8)
            == no_explicit_flow_control,
{
    let e: u8 = if extended_formats { 2u8 } else { 0u8 };
    let n: u8 = if no_explicit_flow_control { 1u8 } else { 0u8 };
    assert((((class << 4u8) | e | n) as u8) >> 4u8 == class && ((((class << 4u8) | e | n) as u8
        >> 1u8) & 1u8 == 1u8) == (e == 2u8) && ((((class << 4u8) | e | n) as u8) & 1u8 == 1u8) == (
    n == 1u8)) by (bit_vector)
        requires
            class < 16,
            e == 0u8 || e == 2u8,
            n == 0u8 || n == 1u8,
    ;
}

pub proof fn lemma_parameters_bytes_len(ps: Seq<ParameterView>)
    ensures
        parameters_bytes(ps).len() == parameters_len(ps),
    decreases ps.len(),
{
    if ps.len() > 0 {
        lemma_parameters_bytes_len(ps.skip(1));
    }
}

/// A list of parameters with content decodes back from its encoding, also
/// when a lone destination-TSAP code follows it, as some devices send.
pub proof fn lemma_parameters_round_trip(ps: Seq<ParameterView>, end: Seq<u8>)
    requires
        forall|i: int| 0 <= i < ps.len() ==> parameter_wf(#[trigger] ps[i]) && !(ps[i] is Unknown),
        parameters_end(end),
    ensures
        parse_parameters(parameters_bytes(ps) + end) == Ok::<Seq<ParameterView>, Error>(ps),
    decreases ps.len(),
{
    if ps.len() == 0 {
        assert(parameters_bytes(ps) + end =~= end);
        assert(parse_parameters(end) == Ok::<Seq<ParameterView>, Error>(Seq::empty()));
        assert(ps =~= Seq::<ParameterView>::empty());
    } else {
        let b = parameters_bytes(ps) + end;
        let tail = ps.skip(1);
        assert forall|i: int| 0 <= i < tail.len() implies parameter_wf(#[trigger] tail[i]) && !(
        tail[i] is Unknown) by {
            assert(tail[i] == ps[i + 1]);
        }
        assert(parameter_wf(ps[0]) && !(ps[0] is Unknown));
        assert(b =~= parameter_bytes(ps[0]) + (parameters_bytes(tail) + end));
        lemma_parameter_round_trip(ps[0], parameters_bytes(tail) + end);
        lemma_parameters_round_trip(tail, end);
        assert(b.skip(parameter_bytes(ps[0]).len() as int) =~= parameters_bytes(tail) + end);
        assert(seq![ps[0]] + tail =~= ps);
    }
}

/// Decoding an encoded connect body, whose parameters all have content,
/// gives the body back.
pub proof fn lemma_connect_round_trip(c: ConnectCommView)
    requires
        connect_wf(c),
        forall|i: int| 0 <= i < c.parameters.len() ==> !(#[trigger] c.parameters[i] is Unknown),
    ensures
        parse_connect(connect_bytes(c)) == Ok::<ConnectCommView, Error>(c),
{
    let s = connect_bytes(c);
    assert(s.skip(5) =~= parameters_bytes(c.parameters) + Seq::<u8>::empty());
    lemma_parameters_round_trip(c.parameters, Seq::empty());
    lemma_flags_round_trip(c.class, c.extended_formats, c.no_explicit_flow_control);
    let d = parse_connect(s)->Ok_0;
    assert(d.destination_ref =~= c.destination_ref);
    assert(d.source_ref =~= c.source_ref);
}

/// A control byte gives back the TPDU number, when it fits seven bits, and the flag.
pub proof fn lemma_control_byte_round_trip(tpdu_number: u8, last_data_unit: bool)
    requires
        tpdu_number < 128,
    ensures
        tpdu_number_of(control_byte(tpdu_number, last_data_unit)) == tpdu_number,
        last_data_unit_of(control_byte(tpdu_number, last_data_unit)) == last_data_unit,
{
    let f: u8 = if last_data_unit { 0x80u8 } else { 0u8 };
    assert((((tpdu_number | f) as u8) & 0x7fu8) as u8 == tpdu_number && ((((tpdu_number | f) as u8)
        & 0x80u8 != 0u8) == (f == 0x80u8))) by (bit_vector)
        requires
            tpdu_number < 128,
            f == 0u8 || f == 0x80u8,
    ;
}

impl ConnectComm {
    /// The PDU length byte of a frame carrying this body: the type byte,
    /// the five header bytes and the parameters.
    pub fn length(&self) -> (r: u8)
        requires
            connect_wf(self@),
        ensures
            r as nat == 6 + parameters_len(self@.parameters),
    {
        let ghost ps = self@.parameters;
        let mut sum: u8 = 6;
        let mut i: usize = 0;
        while i < self.parameters.len()
            invariant
                ps == self@.parameters,
                connect_wf(self@),
                i <= self.parameters@.len(),
                sum as nat == 6 + parameters_len(ps.take(i as int)),
            decreases self.parameters@.len() - i,
        {
            proof {
                assert(ps.take(i + 1) =~= ps.take(i as int).push(ps[i as int]));
                lemma_parameters_len_push(ps.take(i as int), ps[i as int]);
                lemma_parameters_len_prefix(ps, i as int + 1);
                assert(parameter_wf(ps[i as int]));
            }
            sum = sum + self.parameters[i].length();
            i = i + 1;
        }
        assert(ps.take(i as int) =~= ps);
        sum
    }

    /// Decodes a whole connect body and empties `src`; on an error `src`
    /// is left as it is.
    pub fn decode(src: &mut BytesMut) -> (r: Result<ConnectComm, Error>)
        ensures
            connect_result_view(r) == parse_connect(bytes_of(*old(src))),
            r is Ok ==> bytes_of(*final(src)).len() == 0,
            r is Err ==> bytes_of(*final(src)) == bytes_of(*old(src)),
    {
        let s = buf_as_slice(src);
        if s.len() < 5 {
            return Err(Error::InsufficientData);
        }
        let destination_ref = [s[0], s[1]];
        let source_ref = [s[2], s[3]];
        let merge = s[4];
        let class = merge >> 4;
        let extended_formats = (merge >> 1) & 1 == 1;
        let no_explicit_flow_control = merge & 1 == 1;
        let mut parameters: Vec<Parameter> = Vec::new();
        let len = s.len();
        let mut i: usize = 5;
        loop
            invariant
                5 <= i <= s@.len(),
                len == s@.len(),
                s@ == bytes_of(*old(src)),
                parse_parameters(s@.skip(5)) == prepend(
                    parameters@.map_values(|p: Parameter| p@),
                    parse_parameters(s@.skip(i as int)),
                ),
            ensures
                5 <= i <= s@.len(),
                s@ == bytes_of(*old(src)),
                parse_parameters(s@.skip(5)) == Ok::<Seq<ParameterView>, Error>(
                    parameters@.map_values(|p: Parameter| p@),
                ),
            decreases s@.len() - i,
        {
            let ghost vs = parameters@.map_values(|p: Parameter| p@);
            match parse_parameter_at(s, i) {
                Ok(Some((p, n))) => {
                    proof {
                        let t = s@.skip(i as int);
                        assert(t.len() == s@.len() - i);
                        assert(t.skip(n as int) =~= s@.skip(i + n));
                        assert(parse_parameters(t) == prepend(
                            seq![p@],
                            parse_parameters(s@.skip(i + n)),
                        ));
                    }
                    parameters.push(p);
                    proof {
                        let vs2 = parameters@.map_values(|p: Parameter| p@);
                        assert(vs2 =~= vs + seq![p@]);
                        match parse_parameters(s@.skip(i + n)) {
                            Ok(rest) => {
                                assert(vs + (seq![p@] + rest) =~= vs2 + rest);
                            },
                            Err(_) => {},
                        }
                    }
                    i = i + n;
                },
                Ok(None) => {
                    assert(parse_parameters(s@.skip(i as int)) == Ok::<
                        Seq<ParameterView>,
                        Error,
                    >(Seq::empty()));
                    assert(parameters@.map_values(|p: Parameter| p@) + Seq::empty()
                        =~= parameters@.map_values(|p: Parameter| p@));
                    break ;
                },
                Err(e) => {
                    return Err(e);
                },
            }
        }
        buf_advance(src, len);
        let r = ConnectComm {
            destination_ref,
            source_ref,
            class,
            extended_formats,
            no_explicit_flow_control,
            parameters,
        };
        Ok(r)
    }

    /// Appends the encoded body to `dst`.
    pub fn encode(&self, dst: &mut BytesMut)
        requires
            connect_wf(self@),
        ensures
            bytes_of(*final(dst)) == bytes_of(*old(dst)) + connect_bytes(self@),
    {
        buf_put_u8(dst, self.destination_ref[0]);
        buf_put_u8(dst, self.destination_ref[1]);
        buf_put_u8(dst, self.source_ref[0]);
        buf_put_u8(dst, self.source_ref[1]);
        let merge: u8 = self.class << 4 | if self.extended_formats {
            2
        } else {
            0
        } | if self.no_explicit_flow_control {
            1
        } else {
            0
        };
        buf_put_u8(dst, merge);
        let ghost ps = self@.parameters;
        let ghost head = bytes_of(*dst);
        let mut i: usize = 0;
        while i < self.parameters.len()
            invariant
                ps == self@.parameters,
                connect_wf(self@),
                i <= self.parameters@.len(),
                bytes_of(*dst) == head + parameters_bytes(ps.take(i as int)),
            decreases self.parameters@.len() - i,
        {
            proof {
                assert(ps.take(i + 1) =~= ps.take(i as int).push(ps[i as int]));
                lemma_parameters_bytes_push(ps.take(i as int), ps[i as int]);
                assert(parameter_wf(ps[i as int]));
            }
            self.parameters[i].encode(dst);
            assert(bytes_of(*dst) =~= head + parameters_bytes(ps.take(i + 1)));
            i = i + 1;
        }
        assert(ps.take(i as int) =~= ps);
        assert(bytes_of(*dst) =~= bytes_of(*old(dst)) + connect_bytes(self@));
    }
}

} // verus!
