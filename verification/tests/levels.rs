use wasm_logger::level::{pad_to_width, LABEL_WIDTH};
use wasm_logger::{ConsoleMethod, Level};

const LEVELS: [Level; 5] = [Level::Error, Level::Warn, Level::Info, Level::Debug, Level::Trace];

#[test]
fn ordinals_run_from_error_to_trace() {
    assert_eq!(Level::Error.ordinal(), 1);
    assert_eq!(Level::Warn.ordinal(), 2);
    assert_eq!(Level::Info.ordinal(), 3);
    assert_eq!(Level::Debug.ordinal(), 4);
    assert_eq!(Level::Trace.ordinal(), 5);
}

#[test]
fn comparison_operators_follow_the_ordinals() {
    for a in LEVELS {
        for b in LEVELS {
            assert_eq!(a < b, a.ordinal() < b.ordinal());
            assert_eq!(a == b, a.ordinal() == b.ordinal());
            assert_eq!(a.is_within(b), a.ordinal() <= b.ordinal());
        }
    }
}

#[test]
fn order_is_total() {
    for a in LEVELS {
        assert!(Level::Error.is_within(a));
        assert!(a.is_within(Level::Trace));
        for b in LEVELS {
            assert!(a.is_within(b) || b.is_within(a));
            if a.is_within(b) && b.is_within(a) {
                assert_eq!(a, b);
            }
        }
    }
}

#[test]
fn level_names_are_upper_case() {
    assert_eq!(Level::Error.as_str(), "ERROR");
    assert_eq!(Level::Warn.as_str(), "WARN");
    assert_eq!(Level::Info.as_str(), "INFO");
    assert_eq!(Level::Debug.as_str(), "DEBUG");
    assert_eq!(Level::Trace.as_str(), "TRACE");
}

#[test]
fn labels_are_five_characters_wide() {
    assert_eq!(LABEL_WIDTH, 5);
    assert_eq!(Level::Error.to_label(), "ERROR");
    assert_eq!(Level::Warn.to_label(), "WARN ");
    assert_eq!(Level::Info.to_label(), "INFO ");
    assert_eq!(Level::Debug.to_label(), "DEBUG");
    assert_eq!(Level::Trace.to_label(), "TRACE");
    for level in LEVELS {
        assert_eq!(level.to_label().chars().count(), 5);
        assert!(level.to_label().starts_with(level.as_str()));
    }
}

#[test]
fn labels_agree_with_the_facade() {
    let pairs = [
        (Level::Error, log::Level::Error),
        (Level::Warn, log::Level::Warn),
        (Level::Info, log::Level::Info),
        (Level::Debug, log::Level::Debug),
        (Level::Trace, log::Level::Trace),
    ];
    for (ours, theirs) in pairs {
        assert_eq!(ours.as_str(), theirs.as_str());
        assert_eq!(ours.to_label(), format!("{: <5}", theirs));
        assert_eq!(ours.ordinal() as usize, theirs as usize);
    }
}

#[test]
fn padding_fills_with_spaces_on_the_right() {
    assert_eq!(pad_to_width("ab", 5), "ab   ");
    assert_eq!(pad_to_width("", 3), "   ");
    assert_eq!(pad_to_width("abc", 4), "abc ");
}

#[test]
fn padding_leaves_long_text_alone() {
    assert_eq!(pad_to_width("abcde", 5), "abcde");
    assert_eq!(pad_to_width("abcdef", 5), "abcdef");
    assert_eq!(pad_to_width("abc", 0), "abc");
    assert_eq!(pad_to_width("", 0), "");
}

#[test]
fn padding_counts_characters_not_bytes() {
    assert_eq!(pad_to_width("é", 3), "é  ");
    assert_eq!(pad_to_width("日本語", 5), "日本語  ");
    assert_eq!(pad_to_width("日本語", 5), format!("{: <5}", "日本語"));
}

#[test]
fn each_level_has_its_console_method() {
    assert_eq!(ConsoleMethod::for_level(Level::Trace), ConsoleMethod::Log);
    assert_eq!(ConsoleMethod::for_level(Level::Debug), ConsoleMethod::Debug);
    assert_eq!(ConsoleMethod::for_level(Level::Info), ConsoleMethod::Info);
    assert_eq!(ConsoleMethod::for_level(Level::Warn), ConsoleMethod::Warn);
    assert_eq!(ConsoleMethod::for_level(Level::Error), ConsoleMethod::Error);
}

#[test]
fn no_two_levels_share_a_console_method() {
    for a in LEVELS {
        for b in LEVELS {
            assert_eq!(ConsoleMethod::for_level(a) == ConsoleMethod::for_level(b), a == b);
        }
    }
}

#[test]
fn console_methods_have_the_names_of_the_console() {
    assert_eq!(ConsoleMethod::Log.as_str(), "log");
    assert_eq!(ConsoleMethod::Debug.as_str(), "debug");
    assert_eq!(ConsoleMethod::Info.as_str(), "info");
    assert_eq!(ConsoleMethod::Warn.as_str(), "warn");
    assert_eq!(ConsoleMethod::Error.as_str(), "error");
}
