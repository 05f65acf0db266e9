//! A logging adapter for a browser-style console.
//!
//! Application code emits records through a logging facade; this library
//! decides, for each record, whether it is emitted and, if so, which console
//! method receives which text and which style descriptors. The decisions are
//! plain functions on plain values, each with a contract that Verus proves;
//! the host performs the console calls and the registration with the facade.

pub mod config;
pub mod console;
pub mod install;
pub mod laws;
pub mod level;
pub mod logger;
pub mod prefix;
pub mod record;
pub mod style;

pub use config::{Config, ConfigView};
pub use console::{ConsoleCall, ConsoleCallView, ConsoleMethod, SegmentStyles, SegmentStylesView};
pub use install::{complete, init, Completion, CompletionView, InitError, Installation};
pub use level::Level;
pub use logger::WasmLogger;
pub use record::{Record, RecordView};
pub use style::Style;
