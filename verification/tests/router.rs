use vk_bootstrap::router::{debug_callback, render_message, resolve_level, LogLevel};

#[test]
fn thresholds_map_to_levels() {
    assert_eq!(resolve_level(0x1000), LogLevel::Error);
    assert_eq!(resolve_level(0x100), LogLevel::Warn);
    assert_eq!(resolve_level(0x10), LogLevel::Info);
    assert_eq!(resolve_level(0x1), LogLevel::Trace);
    assert_eq!(resolve_level(0), LogLevel::Trace);
}

#[test]
fn levels_change_exactly_at_the_thresholds() {
    assert_eq!(resolve_level(0xF), LogLevel::Trace);
    assert_eq!(resolve_level(0xFF), LogLevel::Info);
    assert_eq!(resolve_level(0xFFF), LogLevel::Warn);
    assert_eq!(resolve_level(0x1001), LogLevel::Error);
    assert_eq!(resolve_level(u32::MAX), LogLevel::Error);
}

#[test]
fn level_never_falls_as_severity_rises() {
    let rank = |level: LogLevel| match level {
        LogLevel::Trace => 0,
        LogLevel::Info => 1,
        LogLevel::Warn => 2,
        LogLevel::Error => 3,
    };
    let mut previous = 0;
    let mut severity: u32 = 0;
    while severity <= 0x2000 {
        let current = rank(resolve_level(severity));
        assert!(previous <= current);
        previous = current;
        severity += 1;
    }
}

#[test]
fn text_is_category_in_brackets_then_message() {
    assert_eq!(render_message("VALIDATION", "bad handle"), "(VALIDATION) bad handle");
    assert_eq!(render_message("", ""), "() ");
}

#[test]
fn callback_routes_level_text_and_verdict() {
    let routed = debug_callback(0x1000, 0x2, "bad handle");
    assert_eq!(routed.record.level, LogLevel::Error);
    assert_eq!(routed.record.text, "(VALIDATION) bad handle");
    assert_eq!(routed.verdict, 0);
}

#[test]
fn callback_level_ignores_category_and_message() {
    let first = debug_callback(0x100, 0x1, "one");
    let second = debug_callback(0x100, 0x4, "another message");
    assert_eq!(first.record.level, LogLevel::Warn);
    assert_eq!(second.record.level, LogLevel::Warn);
    assert_eq!(first.record.text, "(GENERAL) one");
    assert_eq!(second.record.text, "(PERFORMANCE) another message");
    assert_eq!(first.verdict, second.verdict);
}

#[test]
fn callback_names_several_categories() {
    let routed = debug_callback(0x10, 0x3, "m");
    assert_eq!(routed.record.level, LogLevel::Info);
    assert_eq!(routed.record.text, "(GENERAL | VALIDATION) m");
}
