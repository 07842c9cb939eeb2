use beat_hard_combat::detection::SimpleEventDetector;
use beat_hard_combat::errors::BleError;
use beat_hard_combat::radio::RadioSlot;
use beat_hard_combat::registry::Registry;
use beat_hard_combat::scan::advertisement_matches_target;
use beat_hard_combat::scan::ScanAccumulator;
use beat_hard_combat::stats::StatsTracker;
use beat_hard_combat::supervisor::advance_session;
use beat_hard_combat::supervisor::select_notify_characteristic;
use beat_hard_combat::supervisor::session_start;
use beat_hard_combat::supervisor::SessionAction;
use beat_hard_combat::supervisor::SessionEvent;
use beat_hard_combat::supervisor::SessionState;
use beat_hard_combat::system::process_notification_data;
use beat_hard_combat::system::BleSystem;
use beat_hard_combat::types::BattleConfig;
use beat_hard_combat::types::CompetitorInfo;
use beat_hard_combat::types::LimbType;

type TestRegistry = Registry<u32, &'static str>;

#[test]
fn registry_tracks_the_connected_set() {
    let mut reg = TestRegistry::new();
    reg.register_connected_device("ManoDerecha_a1", "BH-ManoDerecha", "Ana");
    reg.register_device_without_competitor("PiernaIzquierda_b2", "BH-PiernaIzquierda");
    assert_eq!(reg.connected_count(), 2);

    let ids = reg.get_connected_devices();
    assert!(ids.contains(&"ManoDerecha_a1".to_string()));
    assert!(ids.contains(&"PiernaIzquierda_b2".to_string()));

    let removed = reg.unregister_connected_device("ManoDerecha_a1");
    assert_eq!(removed, Some("BH-ManoDerecha".to_string()));
    assert_eq!(reg.connected_count(), 1);
    assert_eq!(reg.unregister_connected_device("ManoDerecha_a1"), None);
}

#[test]
fn registering_twice_overwrites_in_place() {
    let mut reg = TestRegistry::new();
    reg.register_connected_device("id_1", "first name", "Ana");
    reg.register_connected_device("id_1", "second name", "Ana");
    assert_eq!(reg.connected_count(), 1);
    let state = reg.get_connected_devices_state();
    assert_eq!(state[0].1, "second name");
}

// Resolving the same device id twice in succession hands back the cached
// handle both times, with no discovery involved; the cache survives a
// disconnect and dies only with full cleanup.
#[test]
fn resolve_is_idempotent_and_survives_disconnect() {
    let mut reg = TestRegistry::new();
    assert!(reg.resolve("ManoDerecha_a1").is_none());

    reg.store_device_reference("ManoDerecha_a1", 4711, "BH-ManoDerecha");
    let (h1, n1) = reg.resolve("ManoDerecha_a1").expect("a cache hit");
    assert_eq!(*h1, 4711);
    assert_eq!(n1, "BH-ManoDerecha");
    let (h2, _) = reg.resolve("ManoDerecha_a1").expect("a second cache hit");
    assert_eq!(*h2, 4711);

    // Disconnecting does not evict the cached handle.
    reg.register_connected_device("ManoDerecha_a1", "BH-ManoDerecha", "Ana");
    let (name, _task) = reg.disconnect_device("ManoDerecha_a1");
    assert_eq!(name, Some("BH-ManoDerecha".to_string()));
    let (h3, _) = reg.resolve("ManoDerecha_a1").expect("still cached");
    assert_eq!(*h3, 4711);

    // Full cleanup evicts it.
    reg.clear_all();
    assert!(reg.resolve("ManoDerecha_a1").is_none());
}

#[test]
fn task_tokens_are_attached_and_detached() {
    let mut reg = TestRegistry::new();
    reg.attach_task("id_1", "task one");
    reg.attach_task("id_2", "task two");
    assert_eq!(reg.cleanup_device_task("id_1"), Some("task one"));
    assert_eq!(reg.cleanup_device_task("id_1"), None);
    let rest = reg.cleanup_all_device_tasks();
    assert_eq!(rest, vec!["task two"]);
}

// A disconnect of an unknown id succeeds and changes nothing, and one
// device's state never stops the rest of the batch: the other devices
// are still disconnected and removed from the connected-set.
#[test]
fn disconnect_failure_leaves_the_batch_intact() {
    let mut reg = TestRegistry::new();
    reg.register_connected_device("id_a", "BH-ManoDerecha", "Ana");
    reg.register_connected_device("id_b", "BH-PiernaIzquierda", "Benat");
    reg.attach_task("id_a", "task a");

    // Disconnecting a device that was never connected is a no-op.
    assert_eq!(reg.disconnect_device("id_ghost"), (None, None));
    assert_eq!(reg.connected_count(), 2);

    let (name, task) = reg.disconnect_device("id_b");
    assert_eq!(name, Some("BH-PiernaIzquierda".to_string()));
    assert!(task.is_none());
    assert_eq!(reg.connected_count(), 1);

    // Disconnect is idempotent: the second call changes nothing.
    assert_eq!(reg.disconnect_device("id_b"), (None, None));
    assert_eq!(reg.connected_count(), 1);

    let tokens = reg.disconnect_all_devices();
    assert_eq!(reg.connected_count(), 0);
    assert_eq!(tokens, vec!["task a"]);
}

// Disconnecting a device with no task still detaches nothing but keeps
// the tasks of other devices, and a dangling task (its device already
// unregistered) is still handed back by a direct disconnect.
#[test]
fn disconnect_detaches_tasks_even_without_registration() {
    let mut reg = TestRegistry::new();
    reg.attach_task("id_a", "task a");
    // The id is not in the connected-set, but its task is detached and
    // handed back, as the original's cleanup did.
    let (name, task) = reg.disconnect_device("id_a");
    assert_eq!(name, None);
    assert_eq!(task, Some("task a"));
    assert_eq!(reg.disconnect_device("id_a"), (None, None));
}

#[test]
fn scan_filters_deduplicates_and_caps() {
    let mut acc = ScanAccumulator::new();
    assert!(acc.offer("ManoDerecha_a1", "BH-ManoDerecha", Some(-40)));
    // No product prefix: filtered out.
    assert!(!acc.offer("Other_1", "Fitness Tracker", Some(-60)));
    // Same identity seen again: deduplicated.
    assert!(!acc.offer("ManoDerecha_a1", "BH-ManoDerecha", Some(-41)));
    assert_eq!(acc.count(), 1);

    for i in 0..7u8 {
        let id = format!("PiernaIzquierda_{}", i);
        assert!(acc.offer(&id, "BH-PiernaIzquierda", None));
    }
    assert!(acc.is_full());
    // The cap of eight entries ends the scan early.
    assert!(!acc.offer("ManoIzquierda_new", "BH-ManoIzquierda", None));

    let devices = acc.into_devices();
    assert_eq!(devices.len(), 8);
    assert_eq!(devices[0].id, "ManoDerecha_a1");
    assert_eq!(devices[0].address, "ManoDerecha_a1");
    assert_eq!(devices[0].limb_type.as_deref(), Some("ManoDerecha"));
    assert_eq!(devices[0].limb_name.as_deref(), Some("Mano Derecha"));
    assert_eq!(devices[0].rssi, Some(-40));
    assert!(devices[0].is_connectable);
}

#[test]
fn targeted_search_matches_exact_identifier() {
    assert!(advertisement_matches_target("ManoDerecha_a1", "BH-ManoDerecha", "ManoDerecha_a1"));
    assert!(!advertisement_matches_target("ManoDerecha_a2", "BH-ManoDerecha", "ManoDerecha_a1"));
    // Without the product prefix even a matching id is no candidate.
    assert!(!advertisement_matches_target("ManoDerecha_a1", "Tracker", "ManoDerecha_a1"));
}

#[test]
fn session_walks_the_happy_path() {
    let (s0, a0) = session_start();
    assert_eq!(s0, SessionState::Resolving);
    assert_eq!(a0, SessionAction::Resolve);

    let (s1, a1) = advance_session(s0, SessionEvent::Resolved);
    assert_eq!((s1, a1), (SessionState::Connecting, SessionAction::Connect));
    let (s2, a2) = advance_session(s1, SessionEvent::Connected);
    assert_eq!((s2, a2), (SessionState::DiscoveringService, SessionAction::DiscoverService));
    let (s3, a3) = advance_session(s2, SessionEvent::NotifyCharacteristicFound);
    assert_eq!((s3, a3), (SessionState::Subscribing, SessionAction::Subscribe));
    let (s4, a4) = advance_session(s3, SessionEvent::Subscribed);
    assert_eq!((s4, a4), (SessionState::Streaming, SessionAction::AwaitFrame));
    let (s5, a5) = advance_session(s4, SessionEvent::FrameReceived);
    assert_eq!((s5, a5), (SessionState::Streaming, SessionAction::AwaitFrame));
    let (s6, a6) = advance_session(s5, SessionEvent::StreamClosed);
    assert_eq!(
        (s6, a6),
        (SessionState::Terminated, SessionAction::Cleanup(Some(BleError::StreamEnded)))
    );
    // A terminated session only idles.
    let (s7, a7) = advance_session(s6, SessionEvent::FrameReceived);
    assert_eq!((s7, a7), (SessionState::Terminated, SessionAction::Idle));
}

#[test]
fn every_failure_terminates_with_its_error() {
    let cases = [
        (SessionState::Resolving, SessionEvent::ResolveFailed, BleError::DeviceNotFound),
        (SessionState::Connecting, SessionEvent::ConnectionFailed, BleError::ConnectFailed),
        (
            SessionState::DiscoveringService,
            SessionEvent::NoNotifyCharacteristic,
            BleError::NoNotifyChannel,
        ),
        (SessionState::Subscribing, SessionEvent::SubscriptionFailed, BleError::SubscribeFailed),
        (SessionState::Streaming, SessionEvent::StreamFailed, BleError::StreamError),
    ];
    for (state, event, error) in cases {
        let (next, action) = advance_session(state, event);
        assert_eq!(next, SessionState::Terminated);
        assert_eq!(action, SessionAction::Cleanup(Some(error)));
    }
    // Cancellation terminates any state without an error.
    let (next, action) = advance_session(SessionState::Streaming, SessionEvent::Cancelled);
    assert_eq!(next, SessionState::Terminated);
    assert_eq!(action, SessionAction::Cleanup(None));
}

#[test]
fn error_messages_name_their_condition() {
    assert_eq!(BleError::AdapterUnavailable.message(), "adapter unavailable");
    assert_eq!(BleError::ScanTimeout.message(), "scan timeout");
    assert_eq!(BleError::IncompleteFrame.message(), "incomplete frame");
}

#[test]
fn notify_channel_is_the_first_with_notify() {
    assert_eq!(select_notify_characteristic(&vec![false, false, true, true]), Some(2));
    assert_eq!(select_notify_characteristic(&vec![true]), Some(0));
    assert_eq!(select_notify_characteristic(&vec![false, false]), None);
    assert_eq!(select_notify_characteristic(&vec![]), None);
}

#[test]
fn radio_slot_reuses_and_invalidates() {
    let mut slot: RadioSlot<u64> = RadioSlot::new();
    assert!(slot.acquire_cached().is_none());
    slot.store(99);
    assert_eq!(slot.acquire_cached(), Some(&99));
    assert_eq!(slot.acquire_cached(), Some(&99));
    slot.invalidate();
    assert!(slot.acquire_cached().is_none());
}

#[test]
fn system_status_counts_and_cleanup() {
    let mut system: BleSystem<u64, u32, &'static str> = BleSystem::new();
    system.registry.register_connected_device("id_a", "BH-ManoDerecha", "Ana");
    system.registry.store_device_reference("id_a", 1, "BH-ManoDerecha");
    system.registry.attach_task("id_a", "task a");
    system.radio.store(5);

    let status = system.get_system_status();
    assert_eq!(status.connected_devices, 1);
    assert_eq!(status.active_tasks, 1);
    assert_eq!(status.tracked_competitors, 0);

    let tasks = system.cleanup_ble_system();
    assert_eq!(tasks, vec!["task a"]);
    let status = system.get_system_status();
    assert_eq!(status.connected_devices, 0);
    assert_eq!(status.active_tasks, 0);
    assert!(system.radio.acquire_cached().is_none());
    assert!(system.registry.resolve("id_a").is_none());
}

#[test]
fn pipeline_decodes_classifies_and_records() {
    let mut detector = SimpleEventDetector::new(LimbType::RightHand);
    detector.set_competitor_info(CompetitorInfo {
        id: 1,
        name: "Ana".to_string(),
        weight_g: 70_000,
    });
    let mut stats = StatsTracker::new();

    // A short payload is skipped with IncompleteFrame and changes nothing.
    let short = vec![1u8, 2, 3];
    assert_eq!(
        process_notification_data(&mut detector, &mut stats, &short, 1000).unwrap_err(),
        BleError::IncompleteFrame
    );
    assert_eq!(stats.tracked_competitors(), 0);

    // A qualifying slap frame produces an event and breaks first records.
    let mut bytes = vec![1u8, 90];
    for v in [1500i16, 0, 0, 10000, 0, 0] {
        bytes.extend_from_slice(&v.to_le_bytes());
    }
    let outcome = process_notification_data(&mut detector, &mut stats, &bytes, 1000)
        .unwrap()
        .expect("an event");
    assert_eq!(outcome.0.force_mn, 50_060);
    assert!(outcome.1.force);
    assert_eq!(stats.tracked_competitors(), 1);

    // A frame with no motion produces no event and records nothing.
    let quiet = vec![0u8; 14];
    let none = process_notification_data(&mut detector, &mut stats, &quiet, 2000).unwrap();
    assert!(none.is_none());
}

#[test]
fn battle_config_bundles_its_parameters() {
    let config = BattleConfig::new("rounds".to_string(), 3, None, 2, 123_456);
    assert_eq!(config.mode, "rounds");
    assert_eq!(config.rounds, 3);
    assert_eq!(config.round_duration, None);
    assert_eq!(config.current_round, 2);
    assert_eq!(config.timestamp, 123_456);
}
