//! Event-loop delay sampling over an HDR histogram.
//!
//! A sampling task measures, once per tick, how long the scheduler takes to
//! resume it after a voluntary yield, and hands each delay to an
//! [`EldHistogram`]. The histogram owns the lifecycle of that task and decides
//! what becomes of every delay it is handed. Delays are in nanoseconds, the
//! resolution is in milliseconds.

pub mod eld;
pub mod error;
pub mod histogram;
pub mod task;

pub use eld::EldHistogram;
pub use eld::EldState;
pub use eld::SampleOutcome;
pub use error::Error;
