//! COTP (ISO 8073 class 0) framing: connect PDUs with their parameters, and
//! data-transfer PDUs that embed a payload read and written by an inner codec.
pub mod buffer;
pub mod builder;
pub mod decoder;
pub mod encoder;
pub mod error;
pub mod packet;
pub mod parameter;

pub use builder::{ConnectBuilder, DtDataBuilder};
pub use decoder::{CoptDecoder, PayloadDecoder};
pub use encoder::{CoptEncoder, PayloadEncoder};
pub use error::{Error, ToCoptError};
pub use packet::{ConnectComm, CoptFrame, DtData, PduType};
pub use parameter::{Parameter, TpduSize};
