//! The two hook bodies, shaped as the loader delivers them: each receives
//! the interception's arguments together with the un-hooked original
//! routine, calls through to it exactly once, and returns its result.
//!
//! The call-through is an `FnOnce` value.  Its contract is stated with
//! `call_ensures`, so each hook promises both that the original routine
//! was actually invoked and that whatever it produced is handed back
//! without alteration; the hook's own work is confined to the side
//! effects its contract names.

use vstd::prelude::*;

use crate::dedup::{deactivate_duplicates, deactivation_calls, deduped};
use crate::skills::{JobData, StatusSkill, Unit, pool_add, unit_addtoequipskillpool};

verus! {

/// Hook body for "a unit learns a job's skill": when the job carries an
/// innate ability, registers its identity in the unit's equip pool
/// through the engine's own registration rule, then calls through to the
/// original routine and returns its result verbatim.  A job with no
/// innate ability leaves the unit exactly as it was.
pub fn unit_learnjobskill<R, F: FnOnce() -> R>(this: &mut Unit, job: &JobData, original: F) -> (r:
    R)
    requires
        call_requires(original, ()),
    ensures
        call_ensures(original, (), r),
        (match job.learn_skill {
            Some(sid) => final(this).equip_skill_pool@ == pool_add(
                old(this).equip_skill_pool@,
                sid,
            ),
            None => *final(this) == *old(this),
        }),
        final(this).force == old(this).force,
{
    match &job.learn_skill {
        Some(sid) => {
            unit_addtoequipskillpool(this, sid);
        },
        None => {},
    }
    original()
}

/// Hook body for "build the ability list shown for a unit": calls through
/// to the original routine for the list, clears the shown/active flag of
/// every equip slot duplicating the innate ability, and returns the list
/// together with the slot indices on which the engine's set-active
/// primitive must be invoked.  The list keeps its length and order; only
/// flags change.
pub fn infoutil_getskilllistforunitinfo<F: FnOnce() -> Vec<Option<StatusSkill>>>(original: F) -> (r:
    (Vec<Option<StatusSkill>>, Vec<usize>))
    requires
        call_requires(original, ()),
    ensures
        exists|list: Vec<Option<StatusSkill>>|
            #[trigger] call_ensures(original, (), list) && r.0@ == deduped(list@) && r.1@
                == deactivation_calls(list@),
{
    let mut slots = original();
    let ghost list = slots;
    let calls = deactivate_duplicates(&mut slots);
    proof {
        assert(call_ensures(original, (), list) && slots@ == deduped(list@) && calls@
            == deactivation_calls(list@));
    }
    (slots, calls)
}

} // verus!
