//! Severity levels and their fixed-width labels.

use vstd::prelude::*;

verus! {

/// Severity of a record, from the most urgent (`Error`) to the most verbose
/// (`Trace`). It tags every record and also serves as the threshold of a
/// configuration.
#[derive(Clone, Copy, Debug, PartialEq, Eq, PartialOrd, Ord, Hash, Structural)]
pub enum Level {
    /// Very serious errors.
    Error,
    /// Hazardous situations.
    Warn,
    /// Useful information.
    Info,
    /// Lower priority information.
    Debug,
    /// Very low priority, often extremely verbose, information.
    Trace,
}

/// Width, in characters, of the level segment of a message.
pub const LABEL_WIDTH: usize = 5;

/// `text`, followed by as many spaces as it takes to reach `width` characters;
/// a text that is already that long is left as it is.
pub open spec fn pad_right(text: Seq<char>, width: nat) -> Seq<char> {
    if text.len() >= width {
        text
    } else {
        text + Seq::new((width - text.len()) as nat, |i: int| ' ')
    }
}

/// Left-aligns `text` in a field of `width` characters.
pub fn pad_to_width(text: &str, width: usize) -> (padded: String)
    ensures
        padded@ == pad_right(text@, width as nat),
{
    let len: usize = text.unicode_len();
    let mut padded = String::from_str(text);
    let mut filled: usize = len;
    while filled < width
        invariant
            len == text@.len(),
            len <= filled,
            filled <= width || filled == len,
            padded@ == text@ + Seq::new((filled - len) as nat, |i: int| ' '),
        decreases width - filled,
    {
        proof {
            reveal_strlit(" ");
        }
        padded.append(" ");
        filled = filled + 1;
        assert(padded@ =~= text@ + Seq::new((filled - len) as nat, |i: int| ' '));
    }
    assert(padded@ =~= pad_right(text@, width as nat));
    padded
}

impl Level {
    /// Position in the order of severity: 1 for `Error`, up to 5 for `Trace`.
    /// A smaller rank is a more urgent level.
    pub open spec fn rank(self) -> nat {
        match self {
            Level::Error => 1,
            Level::Warn => 2,
            Level::Info => 3,
            Level::Debug => 4,
            Level::Trace => 5,
        }
    }

    /// A record at level `self` passes a threshold of `threshold`: it is at
    /// least as urgent.
    pub open spec fn passes(self, threshold: Level) -> bool {
        self.rank() <= threshold.rank()
    }

    /// The upper-case name of the level.
    pub open spec fn name(self) -> Seq<char> {
        match self {
            Level::Error => "ERROR"@,
            Level::Warn => "WARN"@,
            Level::Info => "INFO"@,
            Level::Debug => "DEBUG"@,
            Level::Trace => "TRACE"@,
        }
    }

    /// The name, left-aligned in a field of [`LABEL_WIDTH`] characters.
    pub open spec fn label(self) -> Seq<char> {
        pad_right(self.name(), LABEL_WIDTH as nat)
    }

    /// The rank of the level, see [`Level::rank`].
    pub fn ordinal(self) -> (n: u8)
        ensures
            n == self.rank(),
    {
        match self {
            Level::Error => 1,
            Level::Warn => 2,
            Level::Info => 3,
            Level::Debug => 4,
            Level::Trace => 5,
        }
    }

    /// Whether a record at this level passes `threshold`.
    pub fn is_within(self, threshold: Level) -> (within: bool)
        ensures
            within == self.passes(threshold),
    {
        self.ordinal() <= threshold.ordinal()
    }

    /// The upper-case name of the level.
    pub fn as_str(self) -> (name: &'static str)
        ensures
            name@ == self.name(),
    {
        match self {
            Level::Error => "ERROR",
            Level::Warn => "WARN",
            Level::Info => "INFO",
            Level::Debug => "DEBUG",
            Level::Trace => "TRACE",
        }
    }

    /// The level segment of a message: the name padded to [`LABEL_WIDTH`].
    pub fn to_label(self) -> (label: String)
        ensures
            label@ == self.label(),
    {
        pad_to_width(self.as_str(), LABEL_WIDTH)
    }
}

} // verus!
