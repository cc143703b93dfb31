use lockmousetomonitor::catalog::MonitorCatalog;
use lockmousetomonitor::geometry::{MonitorGeometry, MonitorId, Rect};
use lockmousetomonitor::resolver::{parse_selection, resolve};

fn two_monitor_catalog() -> MonitorCatalog {
    let enumerated = vec![
        MonitorGeometry { id: MonitorId(1), rect: Rect { left: 0, top: 0, right: 1920, bottom: 1080 } },
        MonitorGeometry {
            id: MonitorId(2),
            rect: Rect { left: 1920, top: 0, right: 3840, bottom: 1080 },
        },
    ];
    MonitorCatalog::new(&enumerated)
}

#[test]
fn empty_input_uses_current_monitor() {
    let cat = two_monitor_catalog();
    let r = resolve("", &cat, Some(1));
    assert_eq!(r.unwrap().id, MonitorId(2));
}

#[test]
fn empty_input_without_current_monitor_is_fatal() {
    let cat = two_monitor_catalog();
    assert_eq!(resolve("", &cat, None), None);
}

#[test]
fn out_of_range_index_is_fatal() {
    let cat = two_monitor_catalog();
    assert_eq!(resolve("3", &cat, Some(0)), None);
}

#[test]
fn zero_is_fatal_because_indices_are_one_based() {
    let cat = two_monitor_catalog();
    assert_eq!(resolve("0", &cat, Some(0)), None);
}

#[test]
fn in_range_index_selects_by_one_based_position() {
    let cat = two_monitor_catalog();
    let r = resolve("2", &cat, None);
    assert_eq!(r.unwrap().id, MonitorId(2));
    let r1 = resolve("1", &cat, None);
    assert_eq!(r1.unwrap().id, MonitorId(1));
}

#[test]
fn non_numeric_input_is_fatal() {
    let cat = two_monitor_catalog();
    assert_eq!(resolve("two", &cat, Some(0)), None);
    assert_eq!(resolve("-1", &cat, Some(0)), None);
    assert_eq!(resolve("1a", &cat, Some(0)), None);
    assert_eq!(resolve(" 1", &cat, Some(0)), None);
}

#[test]
fn parse_selection_reads_decimal_digits() {
    assert_eq!(parse_selection("1"), Some(1));
    assert_eq!(parse_selection("42"), Some(42));
    assert_eq!(parse_selection("007"), Some(7));
    assert_eq!(parse_selection(""), None);
    assert_eq!(parse_selection("4x"), None);
    assert_eq!(parse_selection("+1"), None);
}

#[test]
fn parse_selection_rejects_values_beyond_usize() {
    // 2^64 does not fit in a 64-bit usize.
    assert_eq!(parse_selection("18446744073709551616"), None);
    assert_eq!(parse_selection("99999999999999999999999999"), None);
}

#[test]
fn oversized_numeric_input_is_fatal() {
    let cat = two_monitor_catalog();
    assert_eq!(resolve("18446744073709551616", &cat, Some(0)), None);
}
