use onboard::rotation::{rpm_from_elapsed, Channel, RotationTracker};

#[test]
fn rpm_half_second() {
    assert_eq!(rpm_from_elapsed(500), Some(30));
}

#[test]
fn rpm_one_second() {
    assert_eq!(rpm_from_elapsed(1000), Some(15));
}

#[test]
fn rpm_zero_elapsed_gives_no_sample() {
    assert_eq!(rpm_from_elapsed(0), None);
}

#[test]
fn rpm_rounds_down_and_extremes() {
    assert_eq!(rpm_from_elapsed(7), Some(2142));
    assert_eq!(rpm_from_elapsed(1), Some(15000));
    assert_eq!(rpm_from_elapsed(u64::MAX), Some(0));
}

#[test]
fn alternating_edges_give_samples() {
    let mut t = RotationTracker::new(0);
    assert_eq!(t.expected_channel(), Channel::A);
    assert_eq!(t.on_edge(Channel::A, 0), None);
    assert_eq!(t.expected_channel(), Channel::B);
    assert_eq!(t.on_edge(Channel::B, 500), Some(30));
    assert_eq!(t.expected_channel(), Channel::A);
    assert_eq!(t.on_edge(Channel::A, 1000), Some(30));
    assert_eq!(t.last_ms, 1000);
}

#[test]
fn edge_on_other_channel_ignored() {
    let mut t = RotationTracker::new(100);
    let before = t;
    assert_eq!(t.on_edge(Channel::B, 600), None);
    assert_eq!(t, before);
    assert_eq!(t.on_edge(Channel::A, 1100), Some(15));
}

#[test]
fn same_timestamp_drops_sample_and_continues() {
    let mut t = RotationTracker::new(0);
    assert_eq!(t.on_edge(Channel::A, 250), Some(60));
    assert_eq!(t.on_edge(Channel::B, 250), None);
    assert_eq!(t.expected_channel(), Channel::A);
    assert_eq!(t.on_edge(Channel::A, 1250), Some(15));
}
