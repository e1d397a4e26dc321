//! Leveled text logging: severities, the stored configuration, and the
//! records that a logging call hands to its sink.

pub mod clock;
pub mod logger;
pub mod severity;
pub mod settings;
pub mod sink;

pub use crate::logger::{debug, error, fatal, info, init, log, trace, warning};
pub use crate::severity::{DEBUG, ERROR, FATAL, INFO, TRACE, WARNING};
