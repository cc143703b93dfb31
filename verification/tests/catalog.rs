use lockmousetomonitor::catalog::MonitorCatalog;
use lockmousetomonitor::geometry::{MonitorGeometry, MonitorId, Point, Rect};

fn mon(id: u64, left: i32, top: i32, right: i32, bottom: i32) -> MonitorGeometry {
    MonitorGeometry { id: MonitorId(id), rect: Rect { left, top, right, bottom } }
}

#[test]
fn sorts_ascending_by_left() {
    let enumerated = vec![
        mon(1, 1920, 0, 3840, 1080),
        mon(2, -1920, 0, 0, 1080),
        mon(3, 0, 0, 1920, 1080),
    ];
    let cat = MonitorCatalog::new(&enumerated);
    assert_eq!(cat.len(), 3);
    assert_eq!(cat.get(0).id, MonitorId(2));
    assert_eq!(cat.get(1).id, MonitorId(3));
    assert_eq!(cat.get(2).id, MonitorId(1));
    assert!(cat.get(0).rect.left <= cat.get(1).rect.left);
    assert!(cat.get(1).rect.left <= cat.get(2).rect.left);
}

#[test]
fn equal_left_keeps_enumeration_order() {
    // Two monitors stacked vertically share the same left coordinate; their
    // enumeration order must survive the sort.
    let enumerated = vec![
        mon(10, 0, 1080, 1920, 2160),
        mon(11, -500, 0, 0, 1080),
        mon(12, 0, 0, 1920, 1080),
    ];
    let cat = MonitorCatalog::new(&enumerated);
    assert_eq!(cat.len(), 3);
    assert_eq!(cat.get(0).id, MonitorId(11));
    assert_eq!(cat.get(1).id, MonitorId(10));
    assert_eq!(cat.get(2).id, MonitorId(12));
}

#[test]
fn empty_enumeration_gives_empty_catalog() {
    let cat = MonitorCatalog::new(&Vec::new());
    assert!(cat.is_empty());
    assert_eq!(cat.len(), 0);
}

#[test]
fn index_of_finds_containing_monitor() {
    let enumerated = vec![mon(1, 0, 0, 1920, 1080), mon(2, 1920, 0, 3840, 1080)];
    let cat = MonitorCatalog::new(&enumerated);
    assert_eq!(cat.index_of(&Point { x: 100, y: 100 }), Some(0));
    assert_eq!(cat.index_of(&Point { x: 1920, y: 0 }), Some(1));
    assert_eq!(cat.index_of(&Point { x: 3839, y: 1079 }), Some(1));
    assert_eq!(cat.index_of(&Point { x: 3840, y: 0 }), None);
    assert_eq!(cat.index_of(&Point { x: -1, y: 0 }), None);
}

#[test]
fn index_of_prefers_first_match_on_overlap() {
    // Overlapping rectangles: the first catalog entry containing the point
    // wins.
    let enumerated = vec![mon(1, 0, 0, 1000, 1000), mon(2, 500, 0, 1500, 1000)];
    let cat = MonitorCatalog::new(&enumerated);
    assert_eq!(cat.index_of(&Point { x: 700, y: 500 }), Some(0));
    assert_eq!(cat.index_of(&Point { x: 1200, y: 500 }), Some(1));
}
