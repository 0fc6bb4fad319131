//! Core pinning for worker lanes. Binding a lane to a core is a performance
//! measure only: when the host cannot enumerate its cores, or enumerates fewer
//! than the lane's index, the lane simply runs unpinned.

use vstd::prelude::*;

verus! {

#[verifier::external_type_specification]
#[verifier::external_body]
pub struct ExCoreId(core_affinity::CoreId);

/// Relies on core_affinity::get_core_ids: the cores the host enumerates for
/// pinning, or nothing where the platform cannot list them.
#[verifier::external_body]
fn enumerate_cores() -> (r: Option<Vec<core_affinity::CoreId>>) {
    core_affinity::get_core_ids()
}

/// Relies on core_affinity::set_for_current: binds the calling thread to the
/// chosen core, reporting whether the platform accepted the binding.
#[verifier::external_body]
fn bind_current_thread(cores: &Vec<core_affinity::CoreId>, index: usize) -> (r: bool)
    requires
        index < cores@.len(),
{
    core_affinity::set_for_current(cores[index])
}

/// The pinning step of one lane: lane `i` binds the thread it runs on to entry
/// `i` of the enumerated core list, the simplest admissible placement. Returns
/// whether the lane is now pinned; a lane that could not be pinned goes on
/// unpinned, since this is a degraded-performance condition, never a fatal one.
pub fn pin_lane(lane_id: usize) -> (pinned: bool) {
    match enumerate_cores() {
        Some(cores) => {
            if lane_id < cores.len() {
                bind_current_thread(&cores, lane_id)
            } else {
                false
            }
        },
        None => false,
    }
}

} // verus!
