//! A log sink that ships records to a remote collector.
//!
//! The library holds the severity model, the JSON envelope, the one-time
//! registration of a sink configuration and the decision taken for each
//! record. Sending the request and running the process-wide handler are left
//! to the caller.

pub mod client;
pub mod envelope;
pub mod error;
pub mod log;
pub mod text;

pub use crate::client::{
    events_url, transport_outcome, HttpVioletData, LogAction, Request, VioletBuilder, DEFAULT_TITLE,
    TIMEOUT_SECS,
};
pub use crate::envelope::{frame_envelope, VioletLog};
pub use crate::error::VioletError;
pub use crate::log::{
    convert_level_to_string, convert_level_to_u8, suppressed, Level, VioletLogSeverity,
};
pub use crate::text::echo_line;
