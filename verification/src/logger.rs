//! The adapter: it holds a configuration and the style table, decides
//! whether a record is emitted and, if so, composes the console call.

use vstd::prelude::*;
use crate::config::{Config, ConfigView};
use crate::console::{call_view, ConsoleCall, ConsoleCallView, ConsoleMethod};
use crate::level::Level;
use crate::prefix::target_starts_with;
use crate::record::{Record, RecordView};
use crate::style::{segment_styles, Style};

verus! {

/// The styled call that `record` gives rise to under `config`, if any: none
/// for a record that the configuration suppresses; otherwise one call of
/// the method of the record's level, with the styled message and the three
/// descriptors of that level.
pub open spec fn styled_call(config: ConfigView, record: RecordView) -> Option<ConsoleCallView> {
    if config.enabled(record.target, record.level) {
        Some(
            ConsoleCallView {
                method: ConsoleMethod::of_level(record.level),
                message: record.styled_message(),
                styles: Some(segment_styles(record.level)),
            },
        )
    } else {
        None
    }
}

/// The call without styles that `record` gives rise to under `config`, if
/// any: none for a record that the configuration suppresses; otherwise one
/// call of the method of the record's level, with the plain message alone.
pub open spec fn plain_call(config: ConfigView, record: RecordView) -> Option<ConsoleCallView> {
    if config.enabled(record.target, record.level) {
        Some(
            ConsoleCallView {
                method: ConsoleMethod::of_level(record.level),
                message: record.plain_message(),
                styles: None,
            },
        )
    } else {
        None
    }
}

/// The logger. Its view is the view of the configuration it was made with;
/// the style table is the same for every logger.
#[derive(Debug)]
pub struct WasmLogger {
    config: Config,
    style: Style,
}

impl View for WasmLogger {
    type V = ConfigView;

    closed spec fn view(&self) -> ConfigView {
        self.config@
    }
}

impl WasmLogger {
    /// A logger that takes over `config` and computes its style table.
    pub fn new(config: Config) -> (logger: WasmLogger)
        ensures
            logger@ == config@,
    {
        WasmLogger { config, style: Style::new() }
    }

    /// Whether a record for `target` at `level` is emitted: its level is no
    /// more verbose than the threshold and, where a prefix is configured,
    /// the target starts with it.
    pub fn enabled(&self, target: &str, level: Level) -> (enabled: bool)
        ensures
            enabled == self@.enabled(target@, level),
    {
        if !level.is_within(self.config.level()) {
            return false;
        }
        match self.config.path_prefix() {
            Some(prefix) => target_starts_with(target, prefix),
            None => true,
        }
    }

    /// The console call for `record`, with styled segments; `None` for a
    /// record that is not emitted. Nothing is formatted for a record that
    /// is dropped.
    pub fn log(&self, record: &Record) -> (call: Option<ConsoleCall>)
        ensures
            call_view(call) == styled_call(self@, record@),
    {
        if !self.enabled(record.target.as_str(), record.level) {
            return None;
        }
        Some(
            ConsoleCall {
                method: ConsoleMethod::for_level(record.level),
                message: record.styled_message(),
                styles: Some(self.style.segments(record.level)),
            },
        )
    }

    /// The console call for `record` on a console that takes no style
    /// descriptors; `None` for a record that is not emitted.
    pub fn log_plain(&self, record: &Record) -> (call: Option<ConsoleCall>)
        ensures
            call_view(call) == plain_call(self@, record@),
    {
        if !self.enabled(record.target.as_str(), record.level) {
            return None;
        }
        Some(
            ConsoleCall {
                method: ConsoleMethod::for_level(record.level),
                message: record.plain_message(),
                styles: None,
            },
        )
    }

    /// Nothing is buffered, so there is nothing to flush.
    pub fn flush(&self) {
    }
}

} // verus!
