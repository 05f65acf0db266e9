//! What is to be logged: a severity threshold and an optional target prefix.

use vstd::prelude::*;
use crate::level::Level;
use crate::prefix::starts_with;

verus! {

/// A configuration as a mathematical value.
pub struct ConfigView {
    /// The most verbose level that is still emitted.
    pub level: Level,
    /// If present, only targets that start with it are eligible.
    pub path_prefix: Option<Seq<char>>,
}

impl ConfigView {
    /// The target is eligible: there is no prefix filter, or the target
    /// starts with the prefix.
    pub open spec fn accepts_target(self, target: Seq<char>) -> bool {
        match self.path_prefix {
            Some(prefix) => starts_with(target, prefix),
            None => true,
        }
    }

    /// A record for `target` at `level` is emitted under this configuration:
    /// the level is no more verbose than the threshold, and the target is
    /// eligible.
    pub open spec fn enabled(self, target: Seq<char>, level: Level) -> bool {
        level.passes(self.level) && self.accepts_target(target)
    }
}

/// Specifies what is logged. A configuration is made once and never changes.
#[derive(Debug, PartialEq, Eq)]
pub struct Config {
    level: Level,
    path_prefix: Option<String>,
}

impl View for Config {
    type V = ConfigView;

    closed spec fn view(&self) -> ConfigView {
        ConfigView {
            level: self.level,
            path_prefix: match self.path_prefix {
                Some(prefix) => Some(prefix@),
                None => None,
            },
        }
    }
}

impl Config {
    /// A configuration that emits every target up to `level`.
    pub fn new(level: Level) -> (config: Config)
        ensures
            config@ == (ConfigView { level, path_prefix: None }),
    {
        Config { level, path_prefix: None }
    }

    /// A configuration that emits, up to `level`, the targets that start
    /// with `path_prefix`. Any text is accepted, the empty one too.
    pub fn with_prefix(level: Level, path_prefix: &str) -> (config: Config)
        ensures
            config@ == (ConfigView { level, path_prefix: Some(path_prefix@) }),
    {
        Config { level, path_prefix: Some(String::from_str(path_prefix)) }
    }

    /// The most verbose level that is still emitted.
    pub fn level(&self) -> (level: Level)
        ensures
            level == self@.level,
    {
        self.level
    }

    /// The prefix that eligible targets start with, if there is one.
    pub fn path_prefix(&self) -> (prefix: Option<&str>)
        ensures
            match prefix {
                Some(text) => self@.path_prefix == Some(text@),
                None => self@.path_prefix is None,
            },
    {
        match &self.path_prefix {
            Some(prefix) => Some(prefix.as_str()),
            None => None,
        }
    }
}

} // verus!
