//! Builders for frames.
use crate::packet::{ConnectComm, CoptFrame, DtData, PduType};
use crate::parameter::Parameter;
use vstd::prelude::*;

verus! {

/// Builds a data-transfer frame around a payload.
pub struct DtDataBuilder<F> {
    pub payload: F,
}

impl<F> DtDataBuilder<F> {
    pub fn new(payload: F) -> (r: Self)
        ensures
            r.payload == payload,
    {
        DtDataBuilder { payload }
    }

    /// The frame with this payload, TPDU number and last-data-unit flag.
    pub fn build(self, tpdu_number: u8, last_data_unit: bool) -> (r: CoptFrame<F>)
        ensures
            r.pdu_type == PduType::DtData(
                DtData { tpdu_number, last_data_unit, payload: self.payload },
            ),
    {
        CoptFrame { pdu_type: PduType::DtData(DtData { tpdu_number, last_data_unit, payload: self.payload }) }
    }
}

/// Builds a connect-request or connect-confirm frame. It starts with zero
/// references, class 0, both flags off and no parameters.
pub struct ConnectBuilder {
    pub destination_ref: [u8; 2],
    pub source_ref: [u8; 2],
    pub class: u8,
    pub extended_formats: bool,
    pub no_explicit_flow_control: bool,
    pub parameters: Vec<Parameter>,
}

/// The builder holds its starting values.
pub open spec fn connect_builder_fresh(b: ConnectBuilder) -> bool {
    &&& b.destination_ref == [0u8, 0u8]
    &&& b.source_ref == [0u8, 0u8]
    &&& b.class == 0
    &&& !b.extended_formats
    &&& !b.no_explicit_flow_control
    &&& b.parameters@.len() == 0
}

impl Default for ConnectBuilder {
    fn default() -> (r: Self)
        ensures
            connect_builder_fresh(r),
    {
        ConnectBuilder::new()
    }
}

impl ConnectBuilder {
    pub fn new() -> (r: Self)
        ensures
            connect_builder_fresh(r),
    {
        ConnectBuilder {
            destination_ref: [0, 0],
            source_ref: [0, 0],
            class: 0,
            extended_formats: false,
            no_explicit_flow_control: false,
            parameters: Vec::new(),
        }
    }

    pub fn destination_ref(self, destination_ref: [u8; 2]) -> (r: Self)
        ensures
            r == (ConnectBuilder { destination_ref, ..self }),
    {
        ConnectBuilder { destination_ref, ..self }
    }

    pub fn source_ref(self, source_ref: [u8; 2]) -> (r: Self)
        ensures
            r == (ConnectBuilder { source_ref, ..self }),
    {
        ConnectBuilder { source_ref, ..self }
    }

    pub fn class(self, class: u8) -> (r: Self)
        ensures
            r == (ConnectBuilder { class, ..self }),
    {
        ConnectBuilder { class, ..self }
    }

    pub fn extended_formats(self, extended_formats: bool) -> (r: Self)
        ensures
            r == (ConnectBuilder { extended_formats, ..self }),
    {
        ConnectBuilder { extended_formats, ..self }
    }

    pub fn no_explicit_flow_control(self, no_explicit_flow_control: bool) -> (r: Self)
        ensures
            r == (ConnectBuilder { no_explicit_flow_control, ..self }),
    {
        ConnectBuilder { no_explicit_flow_control, ..self }
    }

    /// Appends a parameter after those already added.
    pub fn parameter(self, parameter: Parameter) -> (r: Self)
        ensures
            r.destination_ref == self.destination_ref,
            r.source_ref == self.source_ref,
            r.class == self.class,
            r.extended_formats == self.extended_formats,
            r.no_explicit_flow_control == self.no_explicit_flow_control,
            r.parameters@ == self.parameters@.push(parameter),
    {
        let mut b = self;
        b.parameters.push(parameter);
        b
    }

    /// The connect body with the values set so far.
    pub fn build_connect_comm(self) -> (r: ConnectComm)
        ensures
            r.destination_ref == self.destination_ref,
            r.source_ref == self.source_ref,
            r.class == self.class,
            r.extended_formats == self.extended_formats,
            r.no_explicit_flow_control == self.no_explicit_flow_control,
            r.parameters == self.parameters,
    {
        ConnectComm {
            destination_ref: self.destination_ref,
            source_ref: self.source_ref,
            class: self.class,
            extended_formats: self.extended_formats,
            no_explicit_flow_control: self.no_explicit_flow_control,
            parameters: self.parameters,
        }
    }

    /// A connect-request frame with the values set so far.
    pub fn build_to_request<F>(self) -> (r: CoptFrame<F>)
        ensures
            r.pdu_type matches PduType::ConnectRequest(c) && c.destination_ref == self.destination_ref
                && c.source_ref == self.source_ref && c.class == self.class && c.extended_formats
                == self.extended_formats && c.no_explicit_flow_control
                == self.no_explicit_flow_control && c.parameters == self.parameters,
    {
        CoptFrame { pdu_type: PduType::ConnectRequest(self.build_connect_comm()) }
    }

    /// A connect-confirm frame with the values set so far.
    pub fn build_to_confirm<F>(self) -> (r: CoptFrame<F>)
        ensures
            r.pdu_type matches PduType::ConnectConfirm(c) && c.destination_ref == self.destination_ref
                && c.source_ref == self.source_ref && c.class == self.class && c.extended_formats
                == self.extended_formats && c.no_explicit_flow_control
                == self.no_explicit_flow_control && c.parameters == self.parameters,
    {
        CoptFrame { pdu_type: PduType::ConnectConfirm(self.build_connect_comm()) }
    }
}

impl<F> CoptFrame<F> {
    pub fn builder_of_dt_data(payload: F) -> (r: DtDataBuilder<F>)
        ensures
            r.payload == payload,
    {
        DtDataBuilder::new(payload)
    }

    pub fn builder_of_connect() -> (r: ConnectBuilder)
        ensures
            connect_builder_fresh(r),
    {
        ConnectBuilder::new()
    }
}

} // verus!
