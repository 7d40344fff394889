use clipmap::events::{compress_events, Compression, EventKind, Pending};

fn pending(kind: EventKind, same_axis: bool) -> Pending {
    Pending { kind, same_axis }
}

const KINDS: [EventKind; 4] =
    [EventKind::CursorMoved, EventKind::AxisMotion, EventKind::DeviceMotion, EventKind::Other];

#[test]
fn first_event_is_appended() {
    for kind in KINDS {
        assert_eq!(compress_events(&Vec::new(), kind), Compression::Append);
    }
}

#[test]
fn cursor_position_replaces_the_pending_one() {
    let queue = vec![
        pending(EventKind::Other, false),
        pending(EventKind::CursorMoved, false),
        pending(EventKind::AxisMotion, false),
        pending(EventKind::DeviceMotion, false),
    ];
    assert_eq!(compress_events(&queue, EventKind::CursorMoved), Compression::Replace(1));
}

#[test]
fn latest_cursor_position_is_the_one_replaced() {
    let queue = vec![
        pending(EventKind::CursorMoved, false),
        pending(EventKind::CursorMoved, false),
        pending(EventKind::DeviceMotion, true),
    ];
    assert_eq!(compress_events(&queue, EventKind::CursorMoved), Compression::Replace(1));
}

#[test]
fn axis_motion_is_added_to_the_same_axis_only() {
    let queue = vec![
        pending(EventKind::AxisMotion, true),
        pending(EventKind::AxisMotion, false),
        pending(EventKind::CursorMoved, false),
        pending(EventKind::DeviceMotion, true),
    ];
    assert_eq!(compress_events(&queue, EventKind::AxisMotion), Compression::Accumulate(0));
    assert_eq!(compress_events(&queue, EventKind::DeviceMotion), Compression::Accumulate(3));
    let other_axes = vec![
        pending(EventKind::AxisMotion, false),
        pending(EventKind::DeviceMotion, false),
        pending(EventKind::DeviceMotion, true),
    ];
    assert_eq!(compress_events(&other_axes, EventKind::AxisMotion), Compression::Append);
}

#[test]
fn other_input_is_never_jumped_over() {
    let queue = vec![
        pending(EventKind::CursorMoved, false),
        pending(EventKind::AxisMotion, true),
        pending(EventKind::DeviceMotion, true),
        pending(EventKind::Other, false),
        pending(EventKind::AxisMotion, false),
    ];
    assert_eq!(compress_events(&queue, EventKind::CursorMoved), Compression::Append);
    assert_eq!(compress_events(&queue, EventKind::AxisMotion), Compression::Append);
    assert_eq!(compress_events(&queue, EventKind::DeviceMotion), Compression::Append);
}

#[test]
fn other_events_are_always_appended() {
    let queue = vec![
        pending(EventKind::Other, true),
        pending(EventKind::CursorMoved, true),
        pending(EventKind::AxisMotion, true),
    ];
    assert_eq!(compress_events(&queue, EventKind::Other), Compression::Append);
}
