//! Reading the memory statistics from the system, through the `sysinfo` crate.
//!
//! `sysinfo` is taken on trust. What is assumed of it stands in this file and nowhere else: that
//! its three getters hand out what a system record holds, and that the amount in use can be
//! asked for whenever the record's available amount does not exceed its total.

use crate::memory::MemorySnapshot;
use vstd::prelude::*;

verus! {

/// The record that `sysinfo` fills with what the system reports. What a record holds is known
/// only through the three amounts named below.
#[verifier::external_type_specification]
#[verifier::external_body]
pub struct ExSystem(sysinfo::System);

/// The amount of memory, in bytes, that a system record holds as the system's total.
pub uninterp spec fn system_total(system: sysinfo::System) -> u64;

/// The amount of memory, in bytes, that a system record holds as available for use.
pub uninterp spec fn system_available(system: sysinfo::System) -> u64;

/// The amount of memory, in bytes, that a system record gives as in use.
pub uninterp spec fn system_used(system: sysinfo::System) -> u64;

/// `sysinfo::System::new_all` makes a record and fills it with what the system reports at that
/// moment. What the record holds depends on the machine, so nothing is assumed of it.
pub assume_specification[ sysinfo::System::new_all ]() -> (system: sysinfo::System)
;

/// `sysinfo::System::total_memory` is assumed to hand out the total that the record holds.
pub assume_specification[ sysinfo::System::total_memory ](system: &sysinfo::System) -> (total:
    u64)
    ensures
        total == system_total(*system),
;

/// `sysinfo::System::available_memory` is assumed to hand out the available amount that the
/// record holds.
pub assume_specification[ sysinfo::System::available_memory ](system: &sysinfo::System) -> (available:
    u64)
    ensures
        available == system_available(*system),
;

/// `sysinfo::System::used_memory` is assumed to hand out the amount in use that the record
/// gives. On some systems `sysinfo` computes it as the total less the available amount, with a
/// plain subtraction, so the call is allowed only where the available amount does not exceed
/// the total.
pub assume_specification[ sysinfo::System::used_memory ](system: &sysinfo::System) -> (used: u64)
    requires
        system_available(*system) <= system_total(*system),
    ensures
        used == system_used(*system),
;

/// The snapshot that a system record gives: its total and its amount in use, or nothing when
/// the record holds more memory as available than the system has in total.
pub open spec fn spec_snapshot_of(system: sysinfo::System) -> Option<MemorySnapshot> {
    if system_available(system) <= system_total(system) {
        Some(MemorySnapshot { total: system_total(system), used: system_used(system) })
    } else {
        None
    }
}

/// Takes the memory snapshot out of a system record.
///
/// Returns `None` when the record holds more memory as available than the system has in total:
/// no amount in use can be had from such a record.
pub fn snapshot_of(system: &sysinfo::System) -> (reading: Option<MemorySnapshot>)
    ensures
        reading == spec_snapshot_of(*system),
{
    let total = system.total_memory();
    let available = system.available_memory();
    if available <= total {
        Some(MemorySnapshot { total, used: system.used_memory() })
    } else {
        None
    }
}

/// Reads the memory statistics of the machine: makes a fresh system record and takes the
/// snapshot out of it as `snapshot_of` says.
///
/// Which record the system gives depends on the machine, so the contract names none: the
/// reading is the snapshot of some record, with no amount that no record gave.
pub fn read_memory() -> (reading: Option<MemorySnapshot>)
    ensures
        exists|system: sysinfo::System| reading == #[trigger] spec_snapshot_of(system),
{
    let system = sysinfo::System::new_all();
    snapshot_of(&system)
}

} // verus!
