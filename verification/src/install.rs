//! Installing the logger as the process-wide sink of the logging facade.
//!
//! The facade keeps a single slot for the sink, and only the host can reach
//! it. So installation takes two steps here: [`init`] prepares what is to be
//! installed, the host offers it to the facade, and [`complete`] says what
//! is left to do once the facade has answered.

use vstd::prelude::*;
use crate::config::Config;
use crate::console::{ConsoleCall, ConsoleCallView, ConsoleMethod};
use crate::level::Level;
use crate::logger::WasmLogger;

verus! {

/// Why the logger could not be installed.
#[derive(Debug, PartialEq, Eq)]
pub enum InitError {
    /// The facade had a sink already. Holds the facade's own description of
    /// the failure.
    AlreadyInitialized(String),
}

impl InitError {
    /// The description of the failure.
    pub open spec fn description(&self) -> Seq<char> {
        match self {
            InitError::AlreadyInitialized(description) => description@,
        }
    }

    /// The description of the failure, as it is reported on the console.
    pub fn message(&self) -> (message: String)
        ensures
            message@ == self.description(),
    {
        match self {
            InitError::AlreadyInitialized(description) => description.clone(),
        }
    }
}

/// What is to be installed: the sink to offer to the facade, and the level
/// that the facade is to let through, once it has taken the sink.
#[derive(Debug)]
pub struct Installation {
    /// The sink.
    pub logger: WasmLogger,
    /// The most verbose level that the facade is to let through.
    pub max_level: Level,
}

/// What is left to do once the facade has answered.
#[derive(Debug, PartialEq, Eq)]
pub enum Completion {
    /// The sink is installed: set the facade's maximum level to this one.
    SetMaxLevel(Level),
    /// The sink was refused: make this one console call and go on.
    Report(ConsoleCall),
}

/// A completion as a mathematical value.
pub enum CompletionView {
    SetMaxLevel(Level),
    Report(ConsoleCallView),
}

impl View for Completion {
    type V = CompletionView;

    open spec fn view(&self) -> CompletionView {
        match self {
            Completion::SetMaxLevel(level) => CompletionView::SetMaxLevel(*level),
            Completion::Report(call) => CompletionView::Report(call@),
        }
    }
}

/// What follows the facade's answer: on success the facade's maximum level
/// becomes `max_level`; on failure the description of the failure goes to
/// the console's error method, alone, without style descriptors.
pub open spec fn completion_of(max_level: Level, outcome: Result<(), InitError>) -> CompletionView {
    match outcome {
        Ok(_) => CompletionView::SetMaxLevel(max_level),
        Err(error) => CompletionView::Report(
            ConsoleCallView {
                method: ConsoleMethod::Error,
                message: error.description(),
                styles: None,
            },
        ),
    }
}

/// Prepares the installation of a logger for `config`: the logger takes
/// the configuration over, and the facade's maximum level is to become the
/// configured one.
pub fn init(config: Config) -> (installation: Installation)
    ensures
        installation.logger@ == config@,
        installation.max_level == config@.level,
{
    let max_level = config.level();
    Installation { logger: WasmLogger::new(config), max_level }
}

/// What is left to do after the facade answered `outcome` to the offer of
/// the sink. A failure is not handed on: it is reported on the console, by
/// one call, and initialization ends normally.
pub fn complete(max_level: Level, outcome: Result<(), InitError>) -> (completion: Completion)
    ensures
        completion@ == completion_of(max_level, outcome),
{
    match outcome {
        Ok(_) => Completion::SetMaxLevel(max_level),
        Err(error) => Completion::Report(
            ConsoleCall { method: ConsoleMethod::Error, message: error.message(), styles: None },
        ),
    }
}

} // verus!
