//! In-process log buffering: records are fanned out to one queue per
//! delivery backend, drained in batches on a timer, and flushed on a crash.

pub mod level;
pub mod record;
pub mod buffer;
pub mod crash;
pub mod logger;
pub mod providers;

pub use level::{Level, LevelFilter};
pub use record::LogAnywhereRecord;
pub use buffer::LogBuffer;
pub use crash::CrashState;
pub use logger::{InitError, Logger};
pub use providers::{AxiomProvider, DbProvider};
