//! Records and the composite message that is made of one.

use vstd::prelude::*;
use crate::level::Level;

verus! {

/// A record as a mathematical value.
pub struct RecordView {
    pub level: Level,
    pub target: Seq<char>,
    pub args: Seq<char>,
}

impl RecordView {
    /// The message of a styled call. Each `%c` marker consumes one style
    /// descriptor of the call: the first opens the level segment, the
    /// second the target segment, the third the message body.
    pub open spec fn styled_message(self) -> Seq<char> {
        "[%c"@ + self.level.label() + "%c "@ + self.target + "%c] "@ + self.args
    }

    /// The message of a call without styles: level and target on the first
    /// line, the message body below.
    pub open spec fn plain_message(self) -> Seq<char> {
        self.level.label() + " "@ + self.target + "\n"@ + self.args
    }
}

/// A single log event: its level, the name of the category or module it
/// comes from, and the message body, already formatted.
#[derive(Debug, PartialEq, Eq)]
pub struct Record {
    /// Severity of the event.
    pub level: Level,
    /// Name of the category or module that the event comes from.
    pub target: String,
    /// The formatted message body.
    pub args: String,
}

impl View for Record {
    type V = RecordView;

    open spec fn view(&self) -> RecordView {
        RecordView { level: self.level, target: self.target@, args: self.args@ }
    }
}

impl Record {
    /// A record of the given parts. Every text is accepted, the empty one
    /// too.
    pub fn new(level: Level, target: &str, args: &str) -> (record: Record)
        ensures
            record@ == (RecordView { level, target: target@, args: args@ }),
    {
        Record { level, target: String::from_str(target), args: String::from_str(args) }
    }

    /// The message of a styled call for this record.
    pub fn styled_message(&self) -> (message: String)
        ensures
            message@ == self@.styled_message(),
    {
        let label = self.level.to_label();
        let mut message = String::from_str("[%c");
        message.append(label.as_str());
        message.append("%c ");
        message.append(self.target.as_str());
        message.append("%c] ");
        message.append(self.args.as_str());
        message
    }

    /// The message of a call without styles for this record.
    pub fn plain_message(&self) -> (message: String)
        ensures
            message@ == self@.plain_message(),
    {
        let mut message = self.level.to_label();
        message.append(" ");
        message.append(self.target.as_str());
        message.append("\n");
        message.append(self.args.as_str());
        message
    }
}

} // verus!
