//! The style table: one descriptor per level and two that all levels share.

use vstd::prelude::*;
use crate::console::{SegmentStyles, SegmentStylesView};
use crate::level::Level;

verus! {

/// What every level descriptor begins with.
pub open spec fn level_style_base() -> Seq<char> {
    "color: white; padding: 0 3px; background:"@
}

/// The background directive that closes the descriptor of `level`.
pub open spec fn level_background(level: Level) -> Seq<char> {
    match level {
        Level::Trace => " darkgray;"@,
        Level::Debug => " darkgreen;"@,
        Level::Info => " green;"@,
        Level::Warn => " gold;"@,
        Level::Error => " red;"@,
    }
}

/// The descriptor of the level segment of a record at `level`.
pub open spec fn level_style(level: Level) -> Seq<char> {
    level_style_base() + level_background(level)
}

/// The descriptor of the target segment.
pub open spec fn target_style() -> Seq<char> {
    "font-weight: bold; color: inherit"@
}

/// The descriptor of the message body.
pub open spec fn args_style() -> Seq<char> {
    "background: inherit; color: inherit"@
}

/// The descriptors that accompany the message of a record at `level`.
pub open spec fn segment_styles(level: Level) -> SegmentStylesView {
    SegmentStylesView { level: level_style(level), target: target_style(), args: args_style() }
}

/// The style table. It is computed once, from a fixed palette, and holds
/// the same descriptors whatever is logged.
#[derive(Debug)]
pub struct Style {
    lvl_trace: String,
    lvl_debug: String,
    lvl_info: String,
    lvl_warn: String,
    lvl_error: String,
    tgt: String,
    args: String,
}

impl Style {
    /// The entry of the table for `level`.
    pub closed spec fn level_entry(&self, level: Level) -> Seq<char> {
        match level {
            Level::Trace => self.lvl_trace@,
            Level::Debug => self.lvl_debug@,
            Level::Info => self.lvl_info@,
            Level::Warn => self.lvl_warn@,
            Level::Error => self.lvl_error@,
        }
    }

    /// The entry of the table for the target segment.
    pub closed spec fn target_entry(&self) -> Seq<char> {
        self.tgt@
    }

    /// The entry of the table for the message body.
    pub closed spec fn args_entry(&self) -> Seq<char> {
        self.args@
    }

    /// The table holds the palette.
    pub open spec fn is_palette(&self) -> bool {
        &&& forall|level: Level| #[trigger] self.level_entry(level) == level_style(level)
        &&& self.target_entry() == target_style()
        &&& self.args_entry() == args_style()
    }

    /// Every table holds the palette, from its construction on.
    #[verifier::type_invariant]
    spec fn well_formed(self) -> bool {
        self.is_palette()
    }

    /// Computes the table.
    pub fn new() -> (style: Style)
        ensures
            style.is_palette(),
    {
        let base = "color: white; padding: 0 3px; background:";
        Style {
            lvl_trace: String::from_str(base).concat(" darkgray;"),
            lvl_debug: String::from_str(base).concat(" darkgreen;"),
            lvl_info: String::from_str(base).concat(" green;"),
            lvl_warn: String::from_str(base).concat(" gold;"),
            lvl_error: String::from_str(base).concat(" red;"),
            tgt: String::from_str("font-weight: bold; color: inherit"),
            args: String::from_str("background: inherit; color: inherit"),
        }
    }

    /// The descriptor of the level segment of a record at `level`.
    pub fn for_level(&self, level: Level) -> (style: &String)
        ensures
            style@ == level_style(level),
    {
        proof {
            use_type_invariant(self);
            assert(self.level_entry(level) == level_style(level));
        }
        match level {
            Level::Trace => &self.lvl_trace,
            Level::Debug => &self.lvl_debug,
            Level::Info => &self.lvl_info,
            Level::Warn => &self.lvl_warn,
            Level::Error => &self.lvl_error,
        }
    }

    /// The descriptor of the target segment.
    pub fn target(&self) -> (style: &String)
        ensures
            style@ == target_style(),
    {
        proof {
            use_type_invariant(self);
        }
        &self.tgt
    }

    /// The descriptor of the message body.
    pub fn args(&self) -> (style: &String)
        ensures
            style@ == args_style(),
    {
        proof {
            use_type_invariant(self);
        }
        &self.args
    }

    /// The three descriptors that accompany the message of a record at
    /// `level`.
    pub fn segments(&self, level: Level) -> (styles: SegmentStyles)
        ensures
            styles@ == segment_styles(level),
    {
        SegmentStyles {
            level: self.for_level(level).clone(),
            target: self.target().clone(),
            args: self.args().clone(),
        }
    }
}

} // verus!
