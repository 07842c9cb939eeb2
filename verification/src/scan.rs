//! Discovery filtering: which advertisements become candidates.
//!
//! A time-boxed scan feeds every advertisement it sees into a
//! `ScanAccumulator`, which applies the product name filter,
//! deduplicates by device identity and caps the result at eight entries
//! (two competitors with four limbs each).  The accumulator holds the
//! pure decisions; opening the scan and pulling advertisements from the
//! radio happen outside the core.

use vstd::prelude::*;
use crate::detection::determine_limb_type_by_pattern;
use crate::detection::limb_for_device_name;
use crate::strutil::str_contains;
use crate::strutil::str_contains_spec;
use crate::strutil::str_eq;
use crate::types::limb_display_name;
use crate::types::limb_pattern;
use crate::types::BleDevice;

verus! {

/// The cap on scan results: two competitors with four limbs each.
pub const MAX_SCAN_RESULTS: usize = 8;

/// The product prefix an advertised name must carry to be a candidate.
pub open spec fn product_prefix() -> Seq<char> {
    "BH-"@
}

/// Some accepted candidate carries this identifier.
pub open spec fn scan_has_id(s: Seq<BleDevice>, id: Seq<char>) -> bool {
    exists|i: int| 0 <= i < s.len() && #[trigger] s[i].id@ == id
}

/// An advertisement is acceptable when its name carries the product
/// prefix.
pub open spec fn advertisement_eligible(name: Seq<char>) -> bool {
    str_contains_spec(name, product_prefix())
}

/// Collects scan results: name-filtered, deduplicated by identifier,
/// capped at `MAX_SCAN_RESULTS`.
pub struct ScanAccumulator {
    pub devices: Vec<BleDevice>,
}

impl ScanAccumulator {
    /// At most eight entries, all ids distinct, every name carrying the
    /// product prefix.
    pub open spec fn wf(self) -> bool {
        &&& self.devices@.len() <= MAX_SCAN_RESULTS
        &&& forall|i: int, j: int|
            0 <= i < j < self.devices@.len() ==> #[trigger] self.devices@[i].id@
                != #[trigger] self.devices@[j].id@
        &&& forall|i: int|
            0 <= i < self.devices@.len() ==> advertisement_eligible(
                #[trigger] self.devices@[i].name@,
            )
    }

    /// An empty accumulator.
    pub fn new() -> (a: Self)
        ensures
            a.wf(),
            a.devices@.len() == 0,
    {
        ScanAccumulator { devices: Vec::new() }
    }

    /// Whether the cap is reached, ending the scan early.
    pub fn is_full(&self) -> (r: bool)
        ensures
            r == (self.devices@.len() >= MAX_SCAN_RESULTS),
    {
        self.devices.len() >= MAX_SCAN_RESULTS
    }

    /// Offers one advertisement.  Accepted — and then appended with its
    /// limb classification — exactly when the cap is not reached, the
    /// name carries the product prefix, and the identifier is new.
    pub fn offer(&mut self, id: &str, name: &str, rssi: Option<i16>) -> (accepted: bool)
        requires
            old(self).wf(),
        ensures
            final(self).wf(),
            accepted == (old(self).devices@.len() < MAX_SCAN_RESULTS
                && advertisement_eligible(name@) && !scan_has_id(old(self).devices@, id@)),
            accepted ==> {
                let s1 = final(self).devices@;
                let d = s1[s1.len() - 1];
                &&& s1.len() == old(self).devices@.len() + 1
                &&& forall|j: int|
                    0 <= j < old(self).devices@.len() ==> s1[j] == old(self).devices@[j]
                &&& d.id@ == id@
                &&& d.name@ == name@
                &&& d.address@ == id@
                &&& d.limb_type matches Some(p) && p@ == limb_pattern(
                    limb_for_device_name(name@),
                )
                &&& d.limb_name matches Some(n) && n@ == limb_display_name(
                    limb_for_device_name(name@),
                )
                &&& d.rssi == rssi
                &&& d.is_connectable
            },
            !accepted ==> final(self).devices@ == old(self).devices@,
    {
        if self.devices.len() >= MAX_SCAN_RESULTS {
            return false;
        }
        if !str_contains(name, "BH-") {
            return false;
        }
        if self.contains_id(id) {
            return false;
        }
        let limb_type = determine_limb_type_by_pattern(name);
        let ghost s0 = self.devices@;
        let device = BleDevice {
            id: id.to_owned(),
            name: name.to_owned(),
            address: id.to_owned(),
            limb_type: Some(limb_type.ble_name_pattern().to_owned()),
            limb_name: Some(limb_type.name().to_owned()),
            rssi,
            is_connectable: true,
        };
        self.devices.push(device);
        proof {
            assert forall|i: int, j: int|
                0 <= i < j < self.devices@.len() implies #[trigger] self.devices@[i].id@
                != #[trigger] self.devices@[j].id@ by {
                if j == s0.len() as int {
                    assert(s0[i].id@ != id@);
                } else {
                    assert(s0[i].id@ != s0[j].id@);
                }
            }
        }
        true
    }

    /// Whether an identifier was already accepted.
    fn contains_id(&self, id: &str) -> (r: bool)
        ensures
            r == scan_has_id(self.devices@, id@),
    {
        let mut i: usize = 0;
        while i < self.devices.len()
            invariant
                i <= self.devices@.len(),
                forall|j: int| 0 <= j < i ==> #[trigger] self.devices@[j].id@ != id@,
            decreases self.devices@.len() - i,
        {
            if str_eq(self.devices[i].id.as_str(), id) {
                return true;
            }
            i += 1;
        }
        false
    }

    /// How many candidates were accepted.
    pub fn count(&self) -> (n: usize)
        ensures
            n == self.devices@.len(),
    {
        self.devices.len()
    }

    /// Hands the collected candidates out.
    pub fn into_devices(self) -> (r: Vec<BleDevice>)
        ensures
            r == self.devices,
    {
        self.devices
    }
}

/// Whether an advertisement is the device a targeted search looks for:
/// it must carry the product prefix and its identifier must match
/// exactly.  A targeted search returns the moment this holds, without
/// waiting out its time budget.
pub fn advertisement_matches_target(id: &str, name: &str, target_id: &str) -> (r: bool)
    ensures
        r == (advertisement_eligible(name@) && id@ == target_id@),
{
    str_contains(name, "BH-") && str_eq(id, target_id)
}

} // verus!
