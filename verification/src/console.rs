//! The console as the adapter sees it: five output methods, each taking a
//! message and, where segments are styled, three style descriptors.

use vstd::prelude::*;
use crate::level::Level;

verus! {

/// An output method of the console.
#[derive(Clone, Copy, Debug, PartialEq, Eq, Hash, Structural)]
pub enum ConsoleMethod {
    /// `console.log`
    Log,
    /// `console.debug`
    Debug,
    /// `console.info`
    Info,
    /// `console.warn`
    Warn,
    /// `console.error`
    Error,
}

impl ConsoleMethod {
    /// The method that receives the records of `level`: the one of the same
    /// name, and `Log` for `Trace`.
    pub open spec fn of_level(level: Level) -> ConsoleMethod {
        match level {
            Level::Error => ConsoleMethod::Error,
            Level::Warn => ConsoleMethod::Warn,
            Level::Info => ConsoleMethod::Info,
            Level::Debug => ConsoleMethod::Debug,
            Level::Trace => ConsoleMethod::Log,
        }
    }

    /// The name of the method on the console object.
    pub open spec fn name(self) -> Seq<char> {
        match self {
            ConsoleMethod::Log => "log"@,
            ConsoleMethod::Debug => "debug"@,
            ConsoleMethod::Info => "info"@,
            ConsoleMethod::Warn => "warn"@,
            ConsoleMethod::Error => "error"@,
        }
    }

    /// The method that receives the records of `level`.
    pub fn for_level(level: Level) -> (method: ConsoleMethod)
        ensures
            method == ConsoleMethod::of_level(level),
    {
        match level {
            Level::Error => ConsoleMethod::Error,
            Level::Warn => ConsoleMethod::Warn,
            Level::Info => ConsoleMethod::Info,
            Level::Debug => ConsoleMethod::Debug,
            Level::Trace => ConsoleMethod::Log,
        }
    }

    /// The name of the method on the console object.
    pub fn as_str(self) -> (name: &'static str)
        ensures
            name@ == self.name(),
    {
        match self {
            ConsoleMethod::Log => "log",
            ConsoleMethod::Debug => "debug",
            ConsoleMethod::Info => "info",
            ConsoleMethod::Warn => "warn",
            ConsoleMethod::Error => "error",
        }
    }
}

/// The style descriptors of a styled call as mathematical values.
pub struct SegmentStylesView {
    pub level: Seq<char>,
    pub target: Seq<char>,
    pub args: Seq<char>,
}

/// The three style descriptors of a styled call, in the order in which the
/// markers of the message consume them.
#[derive(Debug, PartialEq, Eq)]
pub struct SegmentStyles {
    /// Style of the level segment.
    pub level: String,
    /// Style of the target segment.
    pub target: String,
    /// Style of the message body.
    pub args: String,
}

impl View for SegmentStyles {
    type V = SegmentStylesView;

    open spec fn view(&self) -> SegmentStylesView {
        SegmentStylesView { level: self.level@, target: self.target@, args: self.args@ }
    }
}

/// A console call as a mathematical value.
pub struct ConsoleCallView {
    pub method: ConsoleMethod,
    pub message: Seq<char>,
    pub styles: Option<SegmentStylesView>,
}

/// One call of a console method: the message and, for a styled call, the
/// style descriptors that follow it. A call without styles passes the
/// message alone.
#[derive(Debug, PartialEq, Eq)]
pub struct ConsoleCall {
    /// The method to call.
    pub method: ConsoleMethod,
    /// The first argument.
    pub message: String,
    /// The remaining arguments of a styled call.
    pub styles: Option<SegmentStyles>,
}

impl View for ConsoleCall {
    type V = ConsoleCallView;

    open spec fn view(&self) -> ConsoleCallView {
        ConsoleCallView {
            method: self.method,
            message: self.message@,
            styles: match self.styles {
                Some(styles) => Some(styles@),
                None => None,
            },
        }
    }
}

/// The view of a call that may be absent.
pub open spec fn call_view(call: Option<ConsoleCall>) -> Option<ConsoleCallView> {
    match call {
        Some(call) => Some(call@),
        None => None,
    }
}

} // verus!
