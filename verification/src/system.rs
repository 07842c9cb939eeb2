//! The system context: the shared radio slot, the device registry and
//! the stats tracker as one owned value, passed to every component —
//! no ambient global state — plus the per-notification pipeline that
//! runs decode, classification and record keeping in one verified step.

use vstd::prelude::*;
use crate::detection::decode_frame;
use crate::detection::decoded_frame;
use crate::detection::detection_of;
use crate::detection::detector_after;
use crate::detection::event_of_sample;
use crate::detection::SimpleEventDetector;
use crate::errors::BleError;
use crate::errors::BleResult;
use crate::radio::RadioSlot;
use crate::registry::Registry;
use crate::stats::record_flags_of;
use crate::stats::recorded;
use crate::stats::RecordFlags;
use crate::stats::StatsTracker;
use crate::types::SimpleCombatEvent;

verus! {

/// Counts describing the current state of the system.
#[derive(Clone, Copy, Debug, PartialEq, Eq, Structural)]
pub struct SystemStatus {
    pub connected_devices: usize,
    pub active_tasks: usize,
    pub tracked_competitors: usize,
}

/// Everything the core shares across sessions: the radio slot (handle
/// type `A`), the registry (device handle type `H`, task token type
/// `T`), and the stats tracker.
pub struct BleSystem<A, H, T> {
    pub radio: RadioSlot<A>,
    pub registry: Registry<H, T>,
    pub stats: StatsTracker,
}

impl<A, H, T> BleSystem<A, H, T> {
    /// The registry and the tracker keep their keys unique.
    pub open spec fn wf(self) -> bool {
        &&& self.registry.wf()
        &&& self.stats.wf()
    }

    /// A fresh system: no radio handle, no devices, no records.
    pub fn new() -> (s: Self)
        ensures
            s.wf(),
            s.radio.slot is None,
            s.registry.connected@.len() == 0,
            s.registry.references@.len() == 0,
            s.registry.tasks@.len() == 0,
            s.stats.records@.len() == 0,
    {
        BleSystem { radio: RadioSlot::new(), registry: Registry::new(), stats: StatsTracker::new() }
    }

    /// The counts a status query reports.
    pub fn get_system_status(&self) -> (r: SystemStatus)
        ensures
            r.connected_devices == self.registry.connected@.len(),
            r.active_tasks == self.registry.tasks@.len(),
            r.tracked_competitors == self.stats.records@.len(),
    {
        SystemStatus {
            connected_devices: self.registry.connected_count(),
            active_tasks: self.registry.tasks.len(),
            tracked_competitors: self.stats.tracked_competitors(),
        }
    }

    /// Full reset: every task token is detached (and handed back for the
    /// caller to abort), the connected-set, the handle cache and the
    /// records are cleared, and the radio handle is invalidated so the
    /// next acquisition reinitializes it.
    pub fn cleanup_ble_system(&mut self) -> (tasks: Vec<T>)
        requires
            old(self).wf(),
        ensures
            final(self).wf(),
            final(self).registry.connected@.len() == 0,
            final(self).registry.references@.len() == 0,
            final(self).registry.tasks@.len() == 0,
            final(self).stats.records@.len() == 0,
            final(self).radio.slot is None,
            tasks@.len() == old(self).registry.tasks@.len(),
    {
        let tokens = self.registry.clear_all();
        self.stats.reset_max_stats();
        self.radio.invalidate();
        tokens
    }
}

/// Runs one notification payload through the whole per-sample pipeline:
/// decode the frame (stamped with the given arrival time), classify it,
/// and on an event update the personal bests.  Fails exactly on a short
/// frame, which changes nothing; a frame that yields no event leaves the
/// records untouched.
pub fn process_notification_data(
    detector: &mut SimpleEventDetector,
    stats: &mut StatsTracker,
    data_bytes: &[u8],
    timestamp: u64,
) -> (r: BleResult<Option<(SimpleCombatEvent, RecordFlags)>>)
    requires
        old(detector).wf(),
        old(stats).wf(),
    ensures
        final(detector).wf(),
        final(stats).wf(),
        r is Err <==> data_bytes@.len() < 14,
        r is Err ==> r == BleResult::<Option<(SimpleCombatEvent, RecordFlags)>>::Err(
            BleError::IncompleteFrame,
        ) && *final(detector) == *old(detector) && *final(stats) == *old(stats),
        data_bytes@.len() >= 14 ==> {
            let frame = decoded_frame(data_bytes@, timestamp);
            &&& *final(detector) == detector_after(*old(detector), frame)
            &&& (r matches Ok(Some(_)) <==> detection_of(*old(detector), frame) is Some)
            &&& (r matches Ok(None) ==> *final(stats) == *old(stats))
            &&& (r matches Ok(Some((ev, flags))) ==> event_of_sample(*old(detector), frame, ev)
                && final(stats).records@ == recorded(old(stats).records@, ev) && flags
                == record_flags_of(old(stats).records@, ev))
        },
{
    let frame = match decode_frame(data_bytes, timestamp) {
        Ok(f) => f,
        Err(e) => {
            return Err(e);
        },
    };
    match detector.detect_event(&frame) {
        Some(event) => {
            let flags = stats.record(&event);
            Ok(Some((event, flags)))
        },
        None => Ok(None),
    }
}

} // verus!
