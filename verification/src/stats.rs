//! Per-competitor running maxima (force, velocity, acceleration) with
//! record detection.

use vstd::prelude::*;
use vstd::std_specs::vec::vec_index_mut;
use crate::types::CompetitorMaxStats;
use crate::types::EventKind;
use crate::types::LimbType;
use crate::types::SimpleCombatEvent;

verus! {

/// Which of the three tracked metrics an event just set a new record in.
#[derive(Clone, Copy, Debug, PartialEq, Eq, Structural)]
pub struct RecordFlags {
    pub force: bool,
    pub velocity: bool,
    pub acceleration: bool,
}

impl RecordFlags {
    /// Whether any record was broken; an all-false value warrants no
    /// notification.
    pub fn any(&self) -> (r: bool)
        ensures
            r == (self.force || self.velocity || self.acceleration),
    {
        self.force || self.velocity || self.acceleration
    }
}

/// The stats entry a new competitor starts from: all maxima at zero.
pub open spec fn fresh_stats(ev: SimpleCombatEvent) -> CompetitorMaxStats {
    CompetitorMaxStats {
        competitor_id: ev.competitor_id,
        competitor_name: ev.competitor_name,
        max_force_mn: 0,
        max_velocity_mm_s: 0,
        max_acceleration_mm_s2: 0,
    }
}

/// The stats entry after recording one event: each maximum is raised to
/// the event's value when that value is strictly greater.
pub open spec fn updated_stats(base: CompetitorMaxStats, ev: SimpleCombatEvent) -> CompetitorMaxStats {
    CompetitorMaxStats {
        competitor_id: base.competitor_id,
        competitor_name: base.competitor_name,
        max_force_mn: if ev.force_mn > base.max_force_mn {
            ev.force_mn
        } else {
            base.max_force_mn
        },
        max_velocity_mm_s: if ev.velocity_mm_s > base.max_velocity_mm_s {
            ev.velocity_mm_s
        } else {
            base.max_velocity_mm_s
        },
        max_acceleration_mm_s2: if ev.acceleration_mm_s2 > base.max_acceleration_mm_s2 {
            ev.acceleration_mm_s2
        } else {
            base.max_acceleration_mm_s2
        },
    }
}

/// The record flags of one event against a stats entry.
pub open spec fn broken_records(base: CompetitorMaxStats, ev: SimpleCombatEvent) -> RecordFlags {
    RecordFlags {
        force: ev.force_mn > base.max_force_mn,
        velocity: ev.velocity_mm_s > base.max_velocity_mm_s,
        acceleration: ev.acceleration_mm_s2 > base.max_acceleration_mm_s2,
    }
}

/// Monotonicity of record keeping: recording an event never lowers any
/// maximum, so under any sequence of recorded events every field of a
/// competitor's entry is non-decreasing.
pub proof fn lemma_update_monotone(base: CompetitorMaxStats, ev: SimpleCombatEvent)
    ensures
        updated_stats(base, ev).max_force_mn >= base.max_force_mn,
        updated_stats(base, ev).max_velocity_mm_s >= base.max_velocity_mm_s,
        updated_stats(base, ev).max_acceleration_mm_s2 >= base.max_acceleration_mm_s2,
{
}

/// The stats entries after one event is recorded against them: the
/// entry of the event's competitor is updated, or a fresh one appended.
pub open spec fn recorded(
    s: Seq<CompetitorMaxStats>,
    ev: SimpleCombatEvent,
) -> Seq<CompetitorMaxStats> {
    if has_stats(s, ev.competitor_id) {
        s.update(stats_index(s, ev.competitor_id), updated_stats(s[stats_index(s, ev.competitor_id)], ev))
    } else {
        s.push(updated_stats(fresh_stats(ev), ev))
    }
}

/// The record flags of one event against the stats entries.
pub open spec fn record_flags_of(s: Seq<CompetitorMaxStats>, ev: SimpleCombatEvent) -> RecordFlags {
    if has_stats(s, ev.competitor_id) {
        broken_records(s[stats_index(s, ev.competitor_id)], ev)
    } else {
        broken_records(fresh_stats(ev), ev)
    }
}

/// A competitor with this id has a stats entry.
pub open spec fn has_stats(s: Seq<CompetitorMaxStats>, id: u8) -> bool {
    exists|i: int| 0 <= i < s.len() && #[trigger] s[i].competitor_id == id
}

/// The index of the stats entry of this competitor.
pub open spec fn stats_index(s: Seq<CompetitorMaxStats>, id: u8) -> int {
    choose|i: int| 0 <= i < s.len() && #[trigger] s[i].competitor_id == id
}

/// One entry per competitor.
pub open spec fn stats_wf(s: Seq<CompetitorMaxStats>) -> bool {
    forall|i: int, j: int|
        0 <= i < j < s.len() ==> #[trigger] s[i].competitor_id != #[trigger] s[j].competitor_id
}

/// With one entry per competitor, the entry whose id matches is the one
/// the lookup functions denote.
pub proof fn lemma_stats_entry(s: Seq<CompetitorMaxStats>, id: u8, i: int)
    requires
        stats_wf(s),
        0 <= i < s.len(),
        s[i].competitor_id == id,
    ensures
        has_stats(s, id),
        stats_index(s, id) == i,
{
    assert(has_stats(s, id));
    let j = stats_index(s, id);
    assert(0 <= j < s.len() && s[j].competitor_id == id);
    if i < j {
        assert(s[i].competitor_id != s[j].competitor_id);
    }
    if j < i {
        assert(s[j].competitor_id != s[i].competitor_id);
    }
}

/// The stats entries after a whole sequence of events is recorded, in
/// order.
pub open spec fn recorded_all(
    s: Seq<CompetitorMaxStats>,
    evs: Seq<SimpleCombatEvent>,
) -> Seq<CompetitorMaxStats>
    decreases evs.len(),
{
    if evs.len() == 0 {
        s
    } else {
        recorded_all(recorded(s, evs[0]), evs.drop_first())
    }
}

/// One recording step keeps every existing competitor's entry at its
/// position, with its identity intact and no maximum lowered.
pub proof fn lemma_recorded_step_monotone(
    s: Seq<CompetitorMaxStats>,
    ev: SimpleCombatEvent,
    id: u8,
)
    requires
        stats_wf(s),
        has_stats(s, id),
    ensures
        stats_wf(recorded(s, ev)),
        has_stats(recorded(s, ev), id),
        stats_index(recorded(s, ev), id) == stats_index(s, id),
        recorded(s, ev)[stats_index(s, id)].competitor_id == id,
        recorded(s, ev)[stats_index(s, id)].max_force_mn >= s[stats_index(s, id)].max_force_mn,
        recorded(s, ev)[stats_index(s, id)].max_velocity_mm_s >= s[stats_index(
            s,
            id,
        )].max_velocity_mm_s,
        recorded(s, ev)[stats_index(s, id)].max_acceleration_mm_s2 >= s[stats_index(
            s,
            id,
        )].max_acceleration_mm_s2,
{
    let i = stats_index(s, id);
    assert(0 <= i < s.len() && s[i].competitor_id == id);
    let s1 = recorded(s, ev);
    if has_stats(s, ev.competitor_id) {
        let j = stats_index(s, ev.competitor_id);
        assert(0 <= j < s.len() && s[j].competitor_id == ev.competitor_id);
        assert(s1 == s.update(j, updated_stats(s[j], ev)));
        assert forall|a: int, b: int|
            0 <= a < b < s1.len() implies #[trigger] s1[a].competitor_id != #[trigger] s1[
            b
        ].competitor_id by {
            assert(s[a].competitor_id != s[b].competitor_id);
        }
        lemma_stats_entry(s1, id, i);
    } else {
        assert(s1 == s.push(updated_stats(fresh_stats(ev), ev)));
        assert forall|a: int, b: int|
            0 <= a < b < s1.len() implies #[trigger] s1[a].competitor_id != #[trigger] s1[
            b
        ].competitor_id by {
            if b == s.len() as int {
                assert(s[a].competitor_id != ev.competitor_id);
            } else {
                assert(s[a].competitor_id != s[b].competitor_id);
            }
        }
        lemma_stats_entry(s1, id, i);
    }
}

/// Monotonicity under any sequence: however many events are recorded, in
/// whatever order, an existing competitor's entry keeps its identity and
/// none of its maxima ever decreases.
pub proof fn lemma_recorded_all_monotone(
    s: Seq<CompetitorMaxStats>,
    evs: Seq<SimpleCombatEvent>,
    id: u8,
)
    requires
        stats_wf(s),
        has_stats(s, id),
    ensures
        stats_wf(recorded_all(s, evs)),
        has_stats(recorded_all(s, evs), id),
        recorded_all(s, evs)[stats_index(recorded_all(s, evs), id)].competitor_id == id,
        recorded_all(s, evs)[stats_index(recorded_all(s, evs), id)].max_force_mn >= s[stats_index(
            s,
            id,
        )].max_force_mn,
        recorded_all(s, evs)[stats_index(recorded_all(s, evs), id)].max_velocity_mm_s
            >= s[stats_index(s, id)].max_velocity_mm_s,
        recorded_all(s, evs)[stats_index(recorded_all(s, evs), id)].max_acceleration_mm_s2
            >= s[stats_index(s, id)].max_acceleration_mm_s2,
    decreases evs.len(),
{
    if evs.len() == 0 {
    } else {
        lemma_recorded_step_monotone(s, evs[0], id);
        lemma_recorded_all_monotone(recorded(s, evs[0]), evs.drop_first(), id);
    }
}

/// Tracks the personal bests of every competitor seen so far.
pub struct StatsTracker {
    pub records: Vec<CompetitorMaxStats>,
}

impl StatsTracker {
    /// One entry per competitor.
    pub open spec fn wf(self) -> bool {
        stats_wf(self.records@)
    }

    /// An empty tracker.
    pub fn new() -> (t: Self)
        ensures
            t.records@.len() == 0,
            t.wf(),
    {
        StatsTracker { records: Vec::new() }
    }

    /// The position of a competitor's entry, if one exists.
    fn find_index(&self, competitor_id: u8) -> (r: Option<usize>)
        requires
            self.wf(),
        ensures
            match r {
                Some(i) => i < self.records@.len() && self.records@[i as int].competitor_id
                    == competitor_id && i as int == stats_index(self.records@, competitor_id),
                None => !has_stats(self.records@, competitor_id),
            },
    {
        let mut i: usize = 0;
        while i < self.records.len()
            invariant
                self.wf(),
                i <= self.records@.len(),
                forall|j: int| 0 <= j < i ==> #[trigger] self.records@[j].competitor_id
                    != competitor_id,
            decreases self.records@.len() - i,
        {
            if self.records[i].competitor_id == competitor_id {
                proof {
                    let w = stats_index(self.records@, competitor_id);
                    assert(0 <= w < self.records@.len() && self.records@[w].competitor_id
                        == competitor_id);
                }
                return Some(i);
            }
            i += 1;
        }
        None
    }

    /// Looks up or creates the entry of the event's competitor, raises
    /// each maximum that the event strictly exceeds, and reports which
    /// ones were raised.  Every maximum is non-decreasing, entries of
    /// other competitors are untouched.
    pub fn record(&mut self, event: &SimpleCombatEvent) -> (broken: RecordFlags)
        requires
            old(self).wf(),
        ensures
            final(self).wf(),
            final(self).records@ == recorded(old(self).records@, *event),
            broken == record_flags_of(old(self).records@, *event),
            has_stats(final(self).records@, event.competitor_id),
    {
        match self.find_index(event.competitor_id) {
            Some(i) => {
                let ghost s0 = self.records@;
                let broken = RecordFlags {
                    force: event.force_mn > self.records[i].max_force_mn,
                    velocity: event.velocity_mm_s > self.records[i].max_velocity_mm_s,
                    acceleration: event.acceleration_mm_s2 > self.records[i].max_acceleration_mm_s2,
                };
                let entry = vec_index_mut(&mut self.records, i);
                if event.force_mn > entry.max_force_mn {
                    entry.max_force_mn = event.force_mn;
                }
                if event.velocity_mm_s > entry.max_velocity_mm_s {
                    entry.max_velocity_mm_s = event.velocity_mm_s;
                }
                if event.acceleration_mm_s2 > entry.max_acceleration_mm_s2 {
                    entry.max_acceleration_mm_s2 = event.acceleration_mm_s2;
                }
                proof {
                    assert(self.records@ =~= s0.update(
                        i as int,
                        updated_stats(s0[i as int], *event),
                    ));
                    assert(self.records@[i as int].competitor_id == event.competitor_id);
                }
                broken
            },
            None => {
                let ghost s0 = self.records@;
                let base = CompetitorMaxStats {
                    competitor_id: event.competitor_id,
                    competitor_name: event.competitor_name.clone(),
                    max_force_mn: event.force_mn,
                    max_velocity_mm_s: event.velocity_mm_s,
                    max_acceleration_mm_s2: event.acceleration_mm_s2,
                };
                let broken = RecordFlags {
                    force: event.force_mn > 0,
                    velocity: event.velocity_mm_s > 0,
                    acceleration: event.acceleration_mm_s2 > 0,
                };
                self.records.push(base);
                proof {
                    assert(self.records@ =~= s0.push(
                        updated_stats(fresh_stats(*event), *event),
                    ));
                    assert(self.records@[s0.len() as int].competitor_id == event.competitor_id);
                    assert forall|i: int, j: int|
                        0 <= i < j < self.records@.len() implies #[trigger] self.records@[
                        i
                    ].competitor_id != #[trigger] self.records@[j].competitor_id by {
                        if j == s0.len() as int {
                            assert(s0[i].competitor_id != event.competitor_id);
                        }
                    }
                }
                broken
            },
        }
    }

    /// The stats entry of one competitor, if any event of theirs has
    /// been recorded since the last reset.
    pub fn get_current_max_stats(&self, competitor_id: u8) -> (r: Option<&CompetitorMaxStats>)
        requires
            self.wf(),
        ensures
            match r {
                Some(rec) => has_stats(self.records@, competitor_id) && *rec == self.records@[
                    stats_index(self.records@, competitor_id)
                ],
                None => !has_stats(self.records@, competitor_id),
            },
    {
        match self.find_index(competitor_id) {
            Some(i) => Some(&self.records[i]),
            None => None,
        }
    }

    /// All entries, one per competitor.
    pub fn all_max_stats(&self) -> (r: &Vec<CompetitorMaxStats>)
        ensures
            r@ == self.records@,
    {
        &self.records
    }

    /// How many competitors have an entry.
    pub fn tracked_competitors(&self) -> (n: usize)
        ensures
            n == self.records@.len(),
    {
        self.records.len()
    }

    /// Clears every record.
    pub fn reset_max_stats(&mut self)
        ensures
            final(self).records@.len() == 0,
            final(self).wf(),
    {
        self.records.clear();
    }
}

/// Per-limb counters and maxima, kept for one limb across a session.
#[derive(Clone, Debug)]
pub struct SimpleStats {
    pub limb_type: LimbType,
    pub total_events: u32,
    pub slaps: u32,
    pub kicks: u32,
    pub max_force_mn: u64,
    pub max_velocity_mm_s: u64,
    pub max_acceleration_mm_s2: u64,
    pub last_event_time: u64,
}

/// The per-limb stats after one event: counters stepped by kind, maxima
/// raised where exceeded, the clock advanced to the event.
pub open spec fn stats_after(s: SimpleStats, ev: SimpleCombatEvent) -> SimpleStats {
    SimpleStats {
        limb_type: s.limb_type,
        total_events: (s.total_events + 1) as u32,
        slaps: if ev.event_type == EventKind::Slap {
            (s.slaps + 1) as u32
        } else {
            s.slaps
        },
        kicks: if ev.event_type == EventKind::LowKick {
            (s.kicks + 1) as u32
        } else {
            s.kicks
        },
        max_force_mn: if ev.force_mn > s.max_force_mn {
            ev.force_mn
        } else {
            s.max_force_mn
        },
        max_velocity_mm_s: if ev.velocity_mm_s > s.max_velocity_mm_s {
            ev.velocity_mm_s
        } else {
            s.max_velocity_mm_s
        },
        max_acceleration_mm_s2: if ev.acceleration_mm_s2 > s.max_acceleration_mm_s2 {
            ev.acceleration_mm_s2
        } else {
            s.max_acceleration_mm_s2
        },
        last_event_time: ev.timestamp,
    }
}

impl SimpleStats {
    /// Fresh stats for one limb: no events, all maxima at zero.
    pub fn new(limb_type: LimbType) -> (s: Self)
        ensures
            s.limb_type == limb_type,
            s.total_events == 0,
            s.slaps == 0,
            s.kicks == 0,
            s.max_force_mn == 0,
            s.max_velocity_mm_s == 0,
            s.max_acceleration_mm_s2 == 0,
            s.last_event_time == 0,
    {
        SimpleStats {
            limb_type,
            total_events: 0,
            slaps: 0,
            kicks: 0,
            max_force_mn: 0,
            max_velocity_mm_s: 0,
            max_acceleration_mm_s2: 0,
            last_event_time: 0,
        }
    }

    /// Counts one event and raises the maxima it exceeds.
    pub fn register_event(&mut self, event: &SimpleCombatEvent)
        requires
            old(self).total_events < 0xffff_ffffu32,
            old(self).slaps < 0xffff_ffffu32,
            old(self).kicks < 0xffff_ffffu32,
        ensures
            *final(self) == stats_after(*old(self), *event),
    {
        self.total_events = self.total_events + 1;
        self.last_event_time = event.timestamp;

        match event.event_type {
            EventKind::Slap => {
                self.slaps = self.slaps + 1;
            },
            EventKind::LowKick => {
                self.kicks = self.kicks + 1;
            },
        }

        if event.force_mn > self.max_force_mn {
            self.max_force_mn = event.force_mn;
        }
        if event.velocity_mm_s > self.max_velocity_mm_s {
            self.max_velocity_mm_s = event.velocity_mm_s;
        }
        if event.acceleration_mm_s2 > self.max_acceleration_mm_s2 {
            self.max_acceleration_mm_s2 = event.acceleration_mm_s2;
        }
    }
}

} // verus!
