//! What holds of the adapter for all inputs, stated over the functions that
//! the contracts use and proved.

use vstd::prelude::*;
use vstd::utf8::*;
use crate::config::ConfigView;
use crate::console::ConsoleMethod;
use crate::level::Level;
use crate::logger::{plain_call, styled_call};
use crate::prefix::{lemma_empty_prefix_matches, starts_with};
use crate::record::RecordView;
use crate::style::segment_styles;

verus! {

/// The order of the levels is total, and `Error` is its most urgent end,
/// `Trace` its most verbose one.
pub proof fn law_levels_are_totally_ordered(a: Level, b: Level, c: Level)
    ensures
        a.passes(b) || b.passes(a),
        a.passes(b) && b.passes(a) ==> a == b,
        a.passes(b) && b.passes(c) ==> a.passes(c),
        Level::Error.passes(a),
        a.passes(Level::Trace),
{
}

/// Every label is exactly five characters long and begins with the name of
/// its level.
pub proof fn law_labels_are_fixed_width(level: Level)
    ensures
        level.label().len() == 5,
        level.name().is_prefix_of(level.label()),
{
    reveal_strlit("ERROR");
    reveal_strlit("WARN");
    reveal_strlit("INFO");
    reveal_strlit("DEBUG");
    reveal_strlit("TRACE");
}

/// Without a prefix filter the threshold alone decides: a record is emitted
/// if and only if its level is at least as urgent as the threshold.
pub proof fn law_threshold_decides(threshold: Level, target: Seq<char>, level: Level)
    ensures
        (ConfigView { level: threshold, path_prefix: None }).enabled(target, level)
            <==> level.passes(threshold),
{
}

/// A record whose level is at least as urgent as the threshold is emitted,
/// provided its target is eligible.
pub proof fn law_urgent_enough_is_enabled(config: ConfigView, target: Seq<char>, level: Level)
    requires
        level.passes(config.level),
        config.accepts_target(target),
    ensures
        config.enabled(target, level),
{
}

/// A record that is strictly more verbose than the threshold is suppressed,
/// whatever its target and whatever the prefix filter: it gives no call.
pub proof fn law_too_verbose_is_suppressed(config: ConfigView, record: RecordView)
    requires
        !record.level.passes(config.level),
    ensures
        !config.enabled(record.target, record.level),
        styled_call(config, record) is None,
        plain_call(config, record) is None,
{
}

/// Under a prefix filter, a record that passes the threshold is emitted if
/// and only if its target starts with the prefix.
pub proof fn law_prefix_decides(
    threshold: Level,
    prefix: Seq<char>,
    target: Seq<char>,
    level: Level,
)
    requires
        level.passes(threshold),
    ensures
        (ConfigView { level: threshold, path_prefix: Some(prefix) }).enabled(target, level)
            <==> starts_with(target, prefix),
{
}

/// Whether a record is emitted does not depend on its message body.
pub proof fn law_message_body_is_not_consulted(
    config: ConfigView,
    level: Level,
    target: Seq<char>,
    one_body: Seq<char>,
    other_body: Seq<char>,
)
    ensures
        styled_call(config, RecordView { level, target, args: one_body }) is Some
            <==> styled_call(config, RecordView { level, target, args: other_body }) is Some,
        plain_call(config, RecordView { level, target, args: one_body }) is Some
            <==> plain_call(config, RecordView { level, target, args: other_body }) is Some,
        styled_call(config, RecordView { level, target, args: one_body }) is Some
            <==> config.enabled(target, level),
{
}

/// A configuration with the empty prefix behaves as one without a prefix:
/// the same records are emitted, by the same calls.
pub proof fn law_empty_prefix_is_no_filter(threshold: Level, record: RecordView)
    ensures
        ({
            let filtered = ConfigView { level: threshold, path_prefix: Some(""@) };
            let open = ConfigView { level: threshold, path_prefix: None };
            &&& filtered.enabled(record.target, record.level) == open.enabled(
                record.target,
                record.level,
            )
            &&& styled_call(filtered, record) == styled_call(open, record)
            &&& plain_call(filtered, record) == plain_call(open, record)
        }),
{
    reveal_strlit("");
    assert(""@ =~= Seq::<char>::empty());
    lemma_empty_prefix_matches(record.target);
}

/// Each level has a console method of its own: two levels that share a
/// method are the same level.
pub proof fn law_methods_do_not_overlap(a: Level, b: Level)
    ensures
        ConsoleMethod::of_level(a) == ConsoleMethod::of_level(b) <==> a == b,
{
}

/// A record that is emitted goes to the method of its own level, in the
/// styled form and in the plain one, together with the descriptors of that
/// level or with none.
pub proof fn law_dispatch_follows_level(config: ConfigView, record: RecordView)
    requires
        config.enabled(record.target, record.level),
    ensures
        styled_call(config, record) matches Some(call) && call.method == ConsoleMethod::of_level(
            record.level,
        ) && call.styles == Some(segment_styles(record.level)),
        plain_call(config, record) matches Some(call) && call.method == ConsoleMethod::of_level(
            record.level,
        ) && call.styles is None,
{
}

/// Formatting is a function of the record: two records that hold the same
/// level, target and message body give calls whose messages agree character
/// by character, and so byte by byte.
pub proof fn law_same_record_same_message(
    config: ConfigView,
    first: RecordView,
    second: RecordView,
)
    requires
        first.level == second.level,
        first.target == second.target,
        first.args == second.args,
    ensures
        styled_call(config, first) == styled_call(config, second),
        plain_call(config, first) == plain_call(config, second),
        encode_utf8(first.styled_message()) == encode_utf8(second.styled_message()),
        encode_utf8(first.plain_message()) == encode_utf8(second.plain_message()),
{
}

/// The message keeps the three segments in their order: the level label,
/// then the target, then the message body, which ends the message.
pub proof fn law_message_keeps_segments(record: RecordView)
    ensures
        record.styled_message() == "[%c"@ + record.level.label() + "%c "@ + record.target
            + "%c] "@ + record.args,
        record.args.is_suffix_of(record.styled_message()),
        record.args.is_suffix_of(record.plain_message()),
        record.level.label().is_prefix_of(record.plain_message()),
{
    let styled = record.styled_message();
    let plain = record.plain_message();
    assert(record.args =~= styled.subrange(styled.len() - record.args.len(), styled.len() as int));
    assert(record.args =~= plain.subrange(plain.len() - record.args.len(), plain.len() as int));
    assert(record.level.label() =~= plain.subrange(0, record.level.label().len() as int));
}

} // verus!
