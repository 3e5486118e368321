//! Deduplication of a unit's shown ability list.
//!
//! The engine keeps a unit's innate ability and its equipped abilities in
//! separate storage, so the same ability can legitimately stand both in
//! the innate slot and in an equip slot of the list the UI builds; shown
//! twice, it is also activated and charged twice.  The fix is purely
//! presentational: an equip slot whose ability is identity-equal to the
//! innate one has its shown/active flag cleared, and nothing else about
//! the list changes.
//!
//! By the engine's layout convention, index 1 of the list is the innate
//! slot and indices 2 and 3 are the equip slots.  The convention is relied
//! on, not asserted: a list too short, an absent slot, or an innate slot
//! whose ability does not resolve leaves the list untouched.
//!
//! Identities are compared as decoded text, and only when both sides
//! decode: an identity that fails to decode matches nothing, so a decode
//! failure can never cause a spurious deactivation.

use vstd::prelude::*;

use crate::skills::{SkillData, StatusSkill, statusskill_setactive};

verus! {

/// The innate slot's ability record, when the list is long enough to
/// carry an innate slot, the slot is present, and its record resolves.
pub open spec fn innate_data(slots: Seq<Option<StatusSkill>>) -> Option<SkillData> {
    if slots.len() > 1 {
        match slots[1] {
            Some(sk) => sk.data,
            None => None,
        }
    } else {
        None
    }
}

/// Whether a slot is shown as active and carries an ability whose
/// identity decodes to the text `innate_sid`.  A slot whose identity does
/// not decode matches nothing.
pub open spec fn active_duplicate(slot: Option<StatusSkill>, innate_sid: Seq<char>) -> bool {
    match slot {
        Some(sk) => sk.isactive && (match sk.data {
            Some(d) => (match d.sid {
                Some(s) => s@ == innate_sid,
                None => false,
            }),
            None => false,
        }),
        None => false,
    }
}

/// Whether deduplication clears the flag of slot `x`: only an equip slot
/// (index 2 or 3) that is an active duplicate of an innate ability that
/// resolves and whose identity decodes.
pub open spec fn should_deactivate(slots: Seq<Option<StatusSkill>>, x: int) -> bool {
    match innate_data(slots) {
        Some(innate) => (match innate.sid {
            Some(s) => 2 <= x < 4 && x < slots.len() && active_duplicate(slots[x], s@),
            None => false,
        }),
        None => false,
    }
}

/// The slot with its shown/active flag cleared.
pub open spec fn slot_deactivated(slot: Option<StatusSkill>) -> Option<StatusSkill> {
    match slot {
        Some(sk) => Some(StatusSkill { isactive: false, ..sk }),
        None => None,
    }
}

/// The list after deduplication: the same slots in the same order, with
/// the flag cleared exactly where [`should_deactivate`] holds.
pub open spec fn deduped(slots: Seq<Option<StatusSkill>>) -> Seq<Option<StatusSkill>> {
    Seq::new(
        slots.len(),
        |x: int|
            if should_deactivate(slots, x) {
                slot_deactivated(slots[x])
            } else {
                slots[x]
            },
    )
}

/// The indices, in order, at which deduplication invokes the engine's
/// set-active primitive.  A slot whose flag is already clear is never
/// among them.
pub open spec fn deactivation_calls(slots: Seq<Option<StatusSkill>>) -> Seq<usize> {
    if should_deactivate(slots, 2) && should_deactivate(slots, 3) {
        seq![2usize, 3usize]
    } else if should_deactivate(slots, 2) {
        seq![2usize]
    } else if should_deactivate(slots, 3) {
        seq![3usize]
    } else {
        Seq::<usize>::empty()
    }
}

/// When the innate slot is absent, out of range, carries no resolvable
/// ability, or holds an identity that does not decode, deduplication
/// changes nothing and performs no set-active calls.
pub proof fn lemma_unresolvable_innate_is_noop(slots: Seq<Option<StatusSkill>>)
    requires
        innate_data(slots) is None || innate_data(slots)->0.sid is None,
    ensures
        deduped(slots) == slots,
        deactivation_calls(slots) == Seq::<usize>::empty(),
{
    assert(deduped(slots) =~= slots);
}

/// Deduplication is purely presentational, never structural: the list
/// keeps its length, every slot keeps its presence, its ability record
/// and its category, a slot whose flag is already clear is left exactly
/// as it is, and no flag is ever set.
pub proof fn lemma_dedup_preserves_structure(slots: Seq<Option<StatusSkill>>)
    ensures
        deduped(slots).len() == slots.len(),
        forall|x: int|
            0 <= x < slots.len() ==> (#[trigger] deduped(slots)[x] is Some <==> slots[x] is Some),
        forall|x: int|
            0 <= x < slots.len() && slots[x] is Some ==> #[trigger] deduped(slots)[x]->0.data
                == slots[x]->0.data && deduped(slots)[x]->0.category == slots[x]->0.category,
        forall|x: int|
            0 <= x < slots.len() && slots[x] is Some && !slots[x]->0.isactive
                ==> #[trigger] deduped(slots)[x] == slots[x],
        forall|x: int|
            0 <= x < slots.len() && slots[x] is Some && #[trigger] deduped(slots)[x]->0.isactive
                ==> slots[x]->0.isactive,
{
}

/// A set-active call is never redundant: an index among the deactivation
/// calls names a slot that is present and whose flag is still set.
pub proof fn lemma_no_redundant_deactivation(slots: Seq<Option<StatusSkill>>, x: usize)
    requires
        deactivation_calls(slots).contains(x),
    ensures
        should_deactivate(slots, x as int),
        0 <= x < slots.len(),
        slots[x as int] is Some,
        slots[x as int]->0.isactive,
{
    let calls = deactivation_calls(slots);
    let i = choose|i: int| 0 <= i < calls.len() && calls[i] == x;
    assert(x == 2 || x == 3);
}

fn is_active_duplicate(slot: &Option<StatusSkill>, innate_sid: &String) -> (r: bool)
    ensures
        r == active_duplicate(*slot, innate_sid@),
{
    match slot {
        Some(sk) => {
            if sk.isactive {
                match &sk.data {
                    Some(d) => match &d.sid {
                        Some(s) => *s == *innate_sid,
                        None => false,
                    },
                    None => false,
                }
            } else {
                false
            }
        },
        None => false,
    }
}

fn deactivate_at(slots: &mut Vec<Option<StatusSkill>>, x: usize)
    requires
        x < old(slots)@.len(),
    ensures
        final(slots)@ == old(slots)@.update(x as int, slot_deactivated(old(slots)@[x as int])),
{
    match &mut slots[x] {
        Some(sk) => {
            statusskill_setactive(sk, false);
        },
        None => {},
    }
    assert(slots@ =~= old(slots)@.update(x as int, slot_deactivated(old(slots)@[x as int])));
}

/// Clears the shown/active flag of each equip slot (index 2 or 3) whose
/// ability is an active duplicate of the innate slot's ability, and
/// returns the indices at which the engine's set-active primitive must be
/// invoked, in order.  Length, order and every other field of the list
/// are left as they were.
pub fn deactivate_duplicates(slots: &mut Vec<Option<StatusSkill>>) -> (calls: Vec<usize>)
    ensures
        final(slots)@ == deduped(old(slots)@),
        calls@ == deactivation_calls(old(slots)@),
{
    let mut calls: Vec<usize> = Vec::new();
    if slots.len() <= 1 {
        proof {
            lemma_unresolvable_innate_is_noop(slots@);
        }
        return calls;
    }
    let innate_sid: String = match &slots[1] {
        Some(sk) => match &sk.data {
            Some(d) => match &d.sid {
                Some(s) => s.clone(),
                None => {
                    proof {
                        lemma_unresolvable_innate_is_noop(slots@);
                    }
                    return calls;
                },
            },
            None => {
                proof {
                    lemma_unresolvable_innate_is_noop(slots@);
                }
                return calls;
            },
        },
        None => {
            proof {
                lemma_unresolvable_innate_is_noop(slots@);
            }
            return calls;
        },
    };
    let ghost s0 = slots@;
    if slots.len() > 2 {
        if is_active_duplicate(&slots[2], &innate_sid) {
            deactivate_at(slots, 2);
            calls.push(2);
        }
    }
    if slots.len() > 3 {
        if is_active_duplicate(&slots[3], &innate_sid) {
            deactivate_at(slots, 3);
            calls.push(3);
        }
    }
    proof {
        assert(slots@ =~= deduped(s0));
        assert(calls@ =~= deactivation_calls(s0));
    }
    calls
}

} // verus!
