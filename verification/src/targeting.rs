use vstd::prelude::*;

verus! {

/// Whether a homing entity looks for a new target when its retarget timer
/// fires: it does unless it has a target that still exists.
pub fn update_target(timer_fired: bool, target: Option<u64>, target_exists: bool) -> (b: bool)
    ensures
        b == (timer_fired && !(target is Some && target_exists)),
{
    if !timer_fired {
        return false;
    }
    match target {
        Some(_) => !target_exists,
        None => true,
    }
}

} // verus!
