use reentrancy_fs::monitor::{
    maps_path, Monitor, MonitorAction, MonitorEvent, Phase, EVENT_BUF_LEN, POLL_INTERVAL_MILLIS,
};

fn returned(value: i64) -> MonitorEvent {
    MonitorEvent::Returned { value }
}

#[test]
fn monitor_starts_with_a_poll() {
    let m = Monitor::new(8);
    assert_eq!(m, Monitor { channel: 8, phase: Phase::Polling });
    assert_eq!(m.pending(), MonitorAction::Poll { fd: 8, len: 32 });
    assert_eq!(EVENT_BUF_LEN, 32);
    assert_eq!(POLL_INTERVAL_MILLIS, 10);
}

#[test]
fn empty_poll_leads_to_pause() {
    for value in [0i64, -1, -11, i64::MIN] {
        let (m, a) = Monitor::new(8).step(returned(value));
        assert_eq!(m.phase, Phase::Sleeping);
        assert_eq!(a, MonitorAction::Sleep { millis: 10 });
        let (m, a) = m.step(MonitorEvent::Completed);
        assert_eq!(m, Monitor::new(8));
        assert_eq!(a, MonitorAction::Poll { fd: 8, len: 32 });
    }
}

#[test]
fn event_leads_to_drain_of_mapping_list() {
    for value in [1i64, 31, 32] {
        let (m, a) = Monitor::new(8).step(returned(value));
        assert_eq!(m.phase, Phase::Opening);
        assert_eq!(a, MonitorAction::OpenMaps);
        let (m, a) = m.step(returned(12));
        assert_eq!(m.phase, Phase::Draining { maps: 12 });
        assert_eq!(a, MonitorAction::Drain { fd: 12 });
        let (m, a) = m.step(MonitorEvent::Completed);
        assert_eq!(m.phase, Phase::Reporting);
        assert_eq!(a, MonitorAction::Report);
        let (m, a) = m.step(MonitorEvent::Completed);
        assert_eq!(m.phase, Phase::Sleeping);
        assert_eq!(a, MonitorAction::Sleep { millis: 10 });
        let (m, a) = m.step(MonitorEvent::Completed);
        assert_eq!(m, Monitor::new(8));
        assert_eq!(a, MonitorAction::Poll { fd: 8, len: 32 });
    }
}

#[test]
fn failed_open_still_reports() {
    let (m, _) = Monitor::new(8).step(returned(32));
    let (m, a) = m.step(returned(-1));
    assert_eq!(m.phase, Phase::Reporting);
    assert_eq!(a, MonitorAction::Report);
    assert_eq!(m.channel, 8);
}

#[test]
fn unexpected_outcome_keeps_the_phase() {
    let (m, a) = Monitor::new(8).step(MonitorEvent::Completed);
    assert_eq!(m, Monitor::new(8));
    assert_eq!(a, MonitorAction::Poll { fd: 8, len: 32 });
    let sleeping = Monitor { channel: 8, phase: Phase::Sleeping };
    let (m, a) = sleeping.step(returned(5));
    assert_eq!(m, sleeping);
    assert_eq!(a, MonitorAction::Sleep { millis: 10 });
}

#[test]
fn mapping_list_path() {
    assert_eq!(maps_path(), "/proc/self/maps");
}
