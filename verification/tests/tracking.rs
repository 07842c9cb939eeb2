use beat_hard_combat::stats::SimpleStats;
use beat_hard_combat::stats::StatsTracker;
use beat_hard_combat::types::EventKind;
use beat_hard_combat::types::LimbType;
use beat_hard_combat::types::SimpleCombatEvent;

fn event(competitor_id: u8, force_mn: u64, velocity_mm_s: u64, acceleration_mm_s2: u64) -> SimpleCombatEvent {
    SimpleCombatEvent {
        event_type: EventKind::Slap,
        limb_name: "Mano Derecha".to_string(),
        competitor_id,
        competitor_name: format!("competitor {}", competitor_id),
        velocity_mm_s,
        acceleration_mm_s2,
        force_mn,
        timestamp: 1000,
        confidence_micro: 500_000,
    }
}

// Force 120 N then 95 N for the same competitor: the maximum stays at
// 120 N and the second call breaks no record.
#[test]
fn lower_force_breaks_no_record() {
    let mut tracker = StatsTracker::new();
    let first = tracker.record(&event(1, 120_000, 0, 0));
    assert!(first.force);
    assert!(!first.velocity);
    assert!(!first.acceleration);

    let second = tracker.record(&event(1, 95_000, 0, 0));
    assert!(!second.force);
    assert!(!second.velocity);
    assert!(!second.acceleration);
    assert!(!second.any());

    let stats = tracker.get_current_max_stats(1).expect("an entry");
    assert_eq!(stats.max_force_mn, 120_000);
}

#[test]
fn maxima_never_decrease_under_any_sequence() {
    let mut tracker = StatsTracker::new();
    let forces = [10u64, 500, 20, 500, 9_999, 3, 0, 10_000];
    let mut best = 0u64;
    for f in forces {
        tracker.record(&event(7, f, f / 2, f / 3));
        let entry = tracker.get_current_max_stats(7).expect("an entry");
        best = best.max(f);
        assert_eq!(entry.max_force_mn, best);
        assert!(entry.max_velocity_mm_s <= entry.max_force_mn);
    }
}

#[test]
fn metrics_are_tracked_independently() {
    let mut tracker = StatsTracker::new();
    tracker.record(&event(1, 100, 900, 50));
    // Higher force, lower velocity, higher acceleration.
    let flags = tracker.record(&event(1, 200, 100, 60));
    assert!(flags.force);
    assert!(!flags.velocity);
    assert!(flags.acceleration);
    let stats = tracker.get_current_max_stats(1).unwrap();
    assert_eq!(stats.max_force_mn, 200);
    assert_eq!(stats.max_velocity_mm_s, 900);
    assert_eq!(stats.max_acceleration_mm_s2, 60);
}

#[test]
fn competitors_are_tracked_separately() {
    let mut tracker = StatsTracker::new();
    tracker.record(&event(1, 100, 100, 100));
    tracker.record(&event(2, 300, 300, 300));
    assert_eq!(tracker.tracked_competitors(), 2);
    assert_eq!(tracker.get_current_max_stats(1).unwrap().max_force_mn, 100);
    assert_eq!(tracker.get_current_max_stats(2).unwrap().max_force_mn, 300);
    assert!(tracker.get_current_max_stats(3).is_none());
}

#[test]
fn the_first_entry_keeps_the_first_seen_name() {
    let mut tracker = StatsTracker::new();
    let mut first = event(1, 100, 100, 100);
    first.competitor_name = "Ana".to_string();
    let mut second = event(1, 200, 200, 200);
    second.competitor_name = "Renamed".to_string();
    tracker.record(&first);
    tracker.record(&second);
    let stats = tracker.get_current_max_stats(1).unwrap();
    assert_eq!(stats.competitor_name, "Ana");
}

#[test]
fn a_zero_event_for_a_new_competitor_breaks_nothing() {
    let mut tracker = StatsTracker::new();
    let flags = tracker.record(&event(4, 0, 0, 0));
    assert!(!flags.any());
    let stats = tracker.get_current_max_stats(4).unwrap();
    assert_eq!(stats.max_force_mn, 0);
}

#[test]
fn reset_clears_every_record() {
    let mut tracker = StatsTracker::new();
    tracker.record(&event(1, 100, 100, 100));
    tracker.record(&event(2, 100, 100, 100));
    tracker.reset_max_stats();
    assert_eq!(tracker.tracked_competitors(), 0);
    assert!(tracker.get_current_max_stats(1).is_none());
}

#[test]
fn per_limb_stats_count_kinds_and_maxima() {
    let mut stats = SimpleStats::new(LimbType::RightFoot);
    let mut kick = event(1, 500, 600, 700);
    kick.event_type = EventKind::LowKick;
    kick.timestamp = 2000;
    stats.register_event(&kick);
    let mut slap = event(1, 300, 900, 100);
    slap.timestamp = 2500;
    stats.register_event(&slap);

    assert_eq!(stats.total_events, 2);
    assert_eq!(stats.kicks, 1);
    assert_eq!(stats.slaps, 1);
    assert_eq!(stats.max_force_mn, 500);
    assert_eq!(stats.max_velocity_mm_s, 900);
    assert_eq!(stats.max_acceleration_mm_s2, 700);
    assert_eq!(stats.last_event_time, 2500);
}
