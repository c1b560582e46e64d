use frp::relay::{forward_step, ForwardStep, WatchEvent, WatchVerdict, Watchdog};

#[test]
fn forward_writes_data_and_stops_on_end_or_error() {
    assert_eq!(forward_step(Some(5), true), ForwardStep::Write { len: 5, count: true });
    assert_eq!(forward_step(Some(1024), false), ForwardStep::Write { len: 1024, count: false });
    assert_eq!(forward_step(Some(0), true), ForwardStep::Shutdown);
    assert_eq!(forward_step(None, true), ForwardStep::Shutdown);
}

#[test]
fn watchdog_idle_before_any_traffic() {
    let mut w = Watchdog::new();
    assert_eq!(w.observe(WatchEvent::Tick(0)), WatchVerdict::Idle);
}

#[test]
fn watchdog_fires_at_first_stall() {
    let mut w = Watchdog::new();
    let verdicts: Vec<WatchVerdict> =
        [3u64, 7, 8, 8].iter().map(|c| w.observe(WatchEvent::Tick(*c))).collect();
    assert_eq!(
        verdicts,
        vec![WatchVerdict::Active, WatchVerdict::Active, WatchVerdict::Active, WatchVerdict::Idle]
    );
}

#[test]
fn watchdog_ends_with_relay() {
    let mut w = Watchdog::new();
    assert_eq!(w.observe(WatchEvent::Tick(4)), WatchVerdict::Active);
    assert_eq!(w.observe(WatchEvent::RelayEnded), WatchVerdict::Ended);
    assert_eq!(w.observe(WatchEvent::Tick(4)), WatchVerdict::Idle);
}

#[test]
fn relay_run_copies_until_first_end() {
    let reads = [Some(3usize), Some(1024), Some(0), Some(7), None];
    let mut written = Vec::new();
    for r in reads {
        match forward_step(r, false) {
            ForwardStep::Write { len, .. } => written.push(len),
            ForwardStep::Shutdown => break,
        }
    }
    assert_eq!(written, vec![3, 1024]);
}
