//! The no-op code patcher.
//!
//! At startup the plugin rewrites a fixed, build-specific set of code
//! locations in the host's executable text to no-ops, to disable the
//! zero-cost branch of the engine's skill-point check.  The text is
//! modelled here as a sequence of 32-bit instruction words addressed by
//! byte offset; a rewrite either lands (offset aligned and in range) or
//! is reported, and a batch attempts every offset regardless of earlier
//! failures — a missed patch degrades the fix, it never stops the host.

use vstd::prelude::*;

verus! {

/// The AArch64 no-op instruction word.
pub const NOP_INSTRUCTION: u32 = 0xD503201F;

/// Why a single rewrite was not applied.
#[derive(Clone, Copy, Debug, PartialEq, Eq, Structural)]
pub enum PatchError {
    /// The byte offset does not fall on an instruction boundary.
    Misaligned,
    /// The byte offset lies beyond the patchable text.
    OutOfBounds,
}

/// The patchable executable text of the host process, as instruction
/// words; a byte offset `address` names the word at `address / 4`.
#[derive(Clone, Debug)]
pub struct CodeRegion {
    pub words: Vec<u32>,
}

/// The outcome of one rewrite against a text of `len` words: it lands
/// exactly on an aligned, in-range offset.
pub open spec fn patch_outcome(len: nat, address: u64) -> Result<(), PatchError> {
    if address as int % 4 != 0 {
        Err(PatchError::Misaligned)
    } else if address as int / 4 >= len {
        Err(PatchError::OutOfBounds)
    } else {
        Ok(())
    }
}

/// The text after one rewrite: the addressed word becomes a no-op when
/// the rewrite lands, and nothing changes when it does not.
pub open spec fn nop_applied(words: Seq<u32>, address: u64) -> Seq<u32> {
    if patch_outcome(words.len(), address) is Ok {
        words.update(address as int / 4, NOP_INSTRUCTION)
    } else {
        words
    }
}

/// The text after a batch of rewrites, applied first to last.
pub open spec fn nops_applied(words: Seq<u32>, addresses: Seq<u64>) -> Seq<u32>
    decreases addresses.len(),
{
    if addresses.len() == 0 {
        words
    } else {
        nops_applied(nop_applied(words, addresses[0]), addresses.drop_first())
    }
}

/// Rewriting is idempotent: re-applying a no-op at the same offset
/// changes nothing beyond the first application.
pub proof fn lemma_nop_patch_idempotent(words: Seq<u32>, address: u64)
    ensures
        nop_applied(nop_applied(words, address), address) == nop_applied(words, address),
{
    assert(nop_applied(nop_applied(words, address), address) =~= nop_applied(words, address));
}

/// Rewrites at distinct offsets are independent, and at equal offsets
/// write the same word: a pair of patches lands the same either way
/// around.
pub proof fn lemma_nop_patches_commute(words: Seq<u32>, a: u64, b: u64)
    ensures
        nop_applied(nop_applied(words, a), b) == nop_applied(nop_applied(words, b), a),
{
    assert(nop_applied(nop_applied(words, a), b) =~= nop_applied(nop_applied(words, b), a));
}

proof fn lemma_nops_applied_snoc(words: Seq<u32>, addresses: Seq<u64>, a: u64)
    ensures
        nops_applied(words, addresses.push(a)) == nop_applied(nops_applied(words, addresses), a),
    decreases addresses.len(),
{
    let snoc = addresses.push(a);
    if addresses.len() == 0 {
        assert(snoc[0] == a);
        assert(snoc.drop_first() =~= Seq::<u64>::empty());
        assert(nops_applied(words, snoc) == nops_applied(nop_applied(words, a), snoc.drop_first()));
        assert(nops_applied(nop_applied(words, a), snoc.drop_first()) == nop_applied(words, a));
        assert(nops_applied(words, addresses) == words);
    } else {
        assert(snoc[0] == addresses[0]);
        assert(snoc.drop_first() =~= addresses.drop_first().push(a));
        lemma_nops_applied_snoc(nop_applied(words, addresses[0]), addresses.drop_first(), a);
        assert(nops_applied(words, snoc) == nops_applied(
            nop_applied(words, addresses[0]),
            snoc.drop_first(),
        ));
        assert(nops_applied(words, addresses) == nops_applied(
            nop_applied(words, addresses[0]),
            addresses.drop_first(),
        ));
    }
}

impl CodeRegion {
    /// Rewrites the instruction at byte offset `address` to a no-op.
    /// Succeeds exactly on an aligned, in-range offset; a failed rewrite
    /// reports its reason and leaves the text untouched.
    pub fn apply_nop(&mut self, address: u64) -> (r: Result<(), PatchError>)
        ensures
            r == patch_outcome(old(self).words@.len(), address),
            final(self).words@ == nop_applied(old(self).words@, address),
    {
        if address % 4 != 0 {
            return Err(PatchError::Misaligned);
        }
        let idx = address / 4;
        if idx >= self.words.len() as u64 {
            return Err(PatchError::OutOfBounds);
        }
        let word = &mut self.words[idx as usize];
        *word = NOP_INSTRUCTION;
        Ok(())
    }

    /// Applies the no-op rewrite at every given offset, first to last,
    /// one outcome per offset: a failure at one offset never stops the
    /// attempts at the later ones.
    pub fn apply_nop_batch(&mut self, addresses: &Vec<u64>) -> (outcomes: Vec<
        Result<(), PatchError>,
    >)
        ensures
            outcomes@.len() == addresses@.len(),
            forall|i: int|
                0 <= i < addresses@.len() ==> outcomes@[i] == patch_outcome(
                    old(self).words@.len(),
                    addresses@[i],
                ),
            final(self).words@ == nops_applied(old(self).words@, addresses@),
    {
        let mut outcomes: Vec<Result<(), PatchError>> = Vec::new();
        let mut i: usize = 0;
        while i < addresses.len()
            invariant
                0 <= i <= addresses@.len(),
                outcomes@.len() == i,
                self.words@.len() == old(self).words@.len(),
                forall|j: int|
                    0 <= j < i ==> outcomes@[j] == patch_outcome(
                        old(self).words@.len(),
                        addresses@[j],
                    ),
                self.words@ == nops_applied(old(self).words@, addresses@.subrange(0, i as int)),
            decreases addresses@.len() - i,
        {
            let r = self.apply_nop(addresses[i]);
            outcomes.push(r);
            proof {
                lemma_nops_applied_snoc(
                    old(self).words@,
                    addresses@.subrange(0, i as int),
                    addresses@[i as int],
                );
                assert(addresses@.subrange(0, i as int).push(addresses@[i as int]) =~= addresses@
                    .subrange(0, i as int + 1));
            }
            i += 1;
        }
        proof {
            assert(addresses@.subrange(0, addresses@.len() as int) =~= addresses@);
        }
        outcomes
    }
}

} // verus!
