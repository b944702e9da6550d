//! Telemetry readout for a single GPU: one flag selects one metric, one query
//! answers it, and the answer is rendered as one line of text.
//!
//! Everything here is verified. The vendor calls stand in `device`, each behind a
//! small trusted function; what is done with their results is proved for every
//! value they can hand back.

pub mod decimal;
pub mod error;
pub mod metrics;
pub mod selector;
pub mod dispatch;
pub mod device;
pub mod driver;
