//! The errors of the frame codec.
use vstd::prelude::*;

verus! {

/// `std::io::Error`, carried through unopened.
#[verifier::external_type_specification]
#[verifier::external_body]
pub struct ExIoError(std::io::Error);

/// What can go wrong while decoding or encoding a frame.
#[derive(Debug)]
pub enum Error {
    /// An error of the byte source, passed through.
    IoErr(std::io::Error),
    /// A connect body, a parameter header or a parameter value is cut short.
    InsufficientData,
    /// The frame's PDU type byte is none of the three known codes.
    UnsupportedPdu(u8),
    /// A connect parameter carries a code this layer does not know.
    UnsupportedParameter(u8),
    /// The TPDU-size parameter holds a byte that names no size.
    InvalidEnumValue(u8),
    /// A failure of the inner payload codec, or any other condition.
    Other(String),
}

/// Turns the error of an inner payload codec into this layer's error.
pub trait ToCoptError {
    fn to_err(self) -> Error;
}

} // verus!
