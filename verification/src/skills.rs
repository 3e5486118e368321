//! Plain models of the engine records the hooks read, and the two
//! record-level operations the hooks perform on them.
//!
//! The engine owns the real records; the plugin hands this crate only what
//! the logic actually reads: an ability's string identity (its "sid"), a
//! job's optional innate ability, a unit's pool of equippable identities
//! and its optional allegiance.  An identity whose bytes do not decode to
//! text is carried as `None`.

use vstd::prelude::*;

verus! {

/// A unit's allegiance record; only the numeric classification is read.
#[derive(Clone, Copy, Debug)]
pub struct Force {
    pub force_type: i32,
}

/// An ability record as the hooks see it: its stable string identity, or
/// `None` when the identity does not decode to text.
#[derive(Clone, Debug)]
pub struct SkillData {
    pub sid: Option<String>,
}

/// A job record: at most one innate ability, named by its identity.
#[derive(Clone, Debug)]
pub struct JobData {
    pub learn_skill: Option<String>,
}

/// One entry of the ability list shown for a unit: an optional ability
/// record, the shown/active flag, and a display category tag.
#[derive(Clone, Debug)]
pub struct StatusSkill {
    pub data: Option<SkillData>,
    pub isactive: bool,
    pub category: i32,
}

/// A unit record: the pool of identities it may equip, and its optional
/// allegiance.
#[derive(Clone, Debug)]
pub struct Unit {
    pub equip_skill_pool: Vec<String>,
    pub force: Option<Force>,
}

/// Whether the pool holds an entry identity-equal to `sid`.
pub open spec fn pool_has(pool: Seq<String>, sid: Seq<char>) -> bool {
    exists|i: int| 0 <= i < pool.len() && pool[i]@ == sid
}

/// The pool after registering `sid`: unchanged when an identity-equal
/// entry is already present, else extended by `sid` at the end.
pub open spec fn pool_add(pool: Seq<String>, sid: String) -> Seq<String> {
    if pool_has(pool, sid@) {
        pool
    } else {
        pool.push(sid)
    }
}

/// Registering an identity is idempotent: the identity is a member
/// afterwards, and registering it a second time changes nothing.
pub proof fn lemma_pool_add_idempotent(pool: Seq<String>, sid: String)
    ensures
        pool_has(pool_add(pool, sid), sid@),
        pool_add(pool_add(pool, sid), sid) == pool_add(pool, sid),
{
    if !pool_has(pool, sid@) {
        assert(pool_add(pool, sid)[pool.len() as int]@ == sid@);
    }
}

fn pool_contains(pool: &Vec<String>, sid: &String) -> (r: bool)
    ensures
        r == pool_has(pool@, sid@),
{
    let mut i: usize = 0;
    while i < pool.len()
        invariant
            0 <= i <= pool@.len(),
            forall|j: int| 0 <= j < i ==> pool@[j]@ != sid@,
        decreases pool@.len() - i,
    {
        if pool[i] == *sid {
            assert(pool@[i as int]@ == sid@);
            return true;
        }
        i += 1;
    }
    false
}

/// Registers `sid` in the unit's equip pool through the same rule the
/// engine uses for inherited abilities: adding an identity that is
/// already present is a no-op.
pub fn unit_addtoequipskillpool(this: &mut Unit, sid: &String)
    ensures
        final(this).equip_skill_pool@ == pool_add(old(this).equip_skill_pool@, *sid),
        final(this).force == old(this).force,
{
    if !pool_contains(&this.equip_skill_pool, sid) {
        this.equip_skill_pool.push(sid.clone());
    }
}

/// Sets the slot's shown/active flag, leaving the ability record and the
/// category tag as they were.
pub fn statusskill_setactive(this: &mut StatusSkill, value: bool)
    ensures
        *final(this) == (StatusSkill { isactive: value, ..*old(this) }),
{
    this.isactive = value;
}

/// Resolves the unit's allegiance classification.  A unit with no
/// resolvable force yields 1, a value no real allegiance comparison
/// treats as a match, so callers need no error branch.
pub fn get_force(unit: &Unit) -> (r: i32)
    ensures
        r == (match unit.force {
            Some(f) => f.force_type,
            None => 1i32,
        }),
{
    match &unit.force {
        Some(f) => f.force_type,
        None => 1,
    }
}

} // verus!
