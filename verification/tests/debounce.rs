use shader_toy::debounce::{DebounceCell, WatchKind, QUIET_PERIOD_NS};

// one millisecond, in the cell's unit
const MS: u64 = 1_000_000;

#[test]
fn idle_cell_is_never_due() {
    let mut cell = DebounceCell::new();
    assert!(!cell.is_pending());
    assert!(!cell.poll(1_000 * MS));
    assert_eq!(cell.pending(), None);
}

#[test]
fn quiet_period_is_two_hundred_milliseconds() {
    assert_eq!(QUIET_PERIOD_NS, 200 * MS);
    let mut cell = DebounceCell::new();
    cell.signal(1_000 * MS);
    assert!(!cell.poll(1_199 * MS));
    assert!(!cell.poll(1_200 * MS - 1));
    assert_eq!(cell.pending(), Some(1_000 * MS));
    assert!(cell.poll(1_200 * MS));
    assert_eq!(cell.pending(), None);
}

#[test]
fn poll_before_the_stamp_is_not_due() {
    let mut cell = DebounceCell::new();
    cell.signal(5_000 * MS);
    assert!(!cell.poll(0));
    assert!(cell.is_pending());
}

#[test]
fn five_changes_in_a_burst_give_one_reload() {
    let mut cell = DebounceCell::new();
    let mut reloads = 0;
    let mut now = 0u64;
    for change in 0..5u64 {
        cell.record(WatchKind::Modify, change * 50 * MS);
        // the render loop polls every 16 ms while the burst goes on
        while now < (change * 50 + 50) * MS {
            if cell.poll(now) {
                reloads += 1;
            }
            now += 16 * MS;
        }
    }
    assert_eq!(reloads, 0);
    assert_eq!(cell.pending(), Some(200 * MS));
    while now < 2_000 * MS {
        if cell.poll(now) {
            reloads += 1;
            assert!(now >= 400 * MS);
        }
        now += 16 * MS;
    }
    assert_eq!(reloads, 1);
    assert_eq!(cell.pending(), None);
}

#[test]
fn a_later_change_restarts_the_window() {
    let mut cell = DebounceCell::new();
    cell.signal(100 * MS);
    cell.signal(250 * MS);
    assert!(!cell.poll(300 * MS));
    assert!(!cell.poll(449 * MS));
    assert!(cell.poll(450 * MS));
    assert!(!cell.poll(10_000 * MS));
}

#[test]
fn only_creation_and_modification_stamp_the_cell() {
    for kind in [WatchKind::Any, WatchKind::Access, WatchKind::Remove, WatchKind::Other] {
        assert!(!kind.is_relevant());
        let mut cell = DebounceCell::new();
        cell.record(kind, 9);
        assert_eq!(cell.pending(), None);
        cell.signal(3);
        cell.record(kind, 9);
        assert_eq!(cell.pending(), Some(3));
    }
    for kind in [WatchKind::Create, WatchKind::Modify] {
        assert!(kind.is_relevant());
        let mut cell = DebounceCell::new();
        cell.record(kind, 9);
        assert_eq!(cell.pending(), Some(9));
    }
}

#[test]
fn observer_report_of_a_modification_stamps_the_cell() {
    let mut cell = DebounceCell::new();
    let kind = notify::EventKind::Modify(notify::event::ModifyKind::Any);
    cell.observe(&kind, 42);
    assert_eq!(cell.pending(), Some(42));
    cell.observe(&notify::EventKind::Create(notify::event::CreateKind::File), 50);
    assert_eq!(cell.pending(), Some(50));
}

#[test]
fn observer_report_of_anything_else_leaves_the_cell() {
    let mut cell = DebounceCell::new();
    cell.observe(&notify::EventKind::Remove(notify::event::RemoveKind::File), 42);
    assert_eq!(cell.pending(), None);
    cell.observe(&notify::EventKind::Access(notify::event::AccessKind::Any), 43);
    assert_eq!(cell.pending(), None);
    cell.observe(&notify::EventKind::Any, 44);
    assert_eq!(cell.pending(), None);
    cell.observe(&notify::EventKind::Other, 45);
    assert_eq!(cell.pending(), None);
    cell.signal(7);
    cell.observe(&notify::EventKind::Remove(notify::event::RemoveKind::Any), 46);
    assert_eq!(cell.pending(), Some(7));
}
