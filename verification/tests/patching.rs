use equipskl::patch::{CodeRegion, PatchError, NOP_INSTRUCTION};

#[test]
fn apply_nop_writes_nop_word() {
    let mut region = CodeRegion {
        words: vec![0x11, 0x22],
    };
    assert_eq!(region.apply_nop(4), Ok(()));
    assert_eq!(region.words, vec![0x11, NOP_INSTRUCTION]);

    // Re-applying the same patch is harmless.
    assert_eq!(region.apply_nop(4), Ok(()));
    assert_eq!(region.words, vec![0x11, NOP_INSTRUCTION]);
}

#[test]
fn apply_nop_rejects_misaligned_offset() {
    let mut region = CodeRegion {
        words: vec![0x11, 0x22],
    };
    assert_eq!(region.apply_nop(2), Err(PatchError::Misaligned));
    assert_eq!(region.words, vec![0x11, 0x22]);
}

#[test]
fn apply_nop_rejects_out_of_bounds_offset() {
    let mut region = CodeRegion {
        words: vec![0x11, 0x22],
    };
    assert_eq!(region.apply_nop(8), Err(PatchError::OutOfBounds));
    assert_eq!(region.words, vec![0x11, 0x22]);
}

#[test]
fn patch_batch_attempts_every_address() {
    let mut region = CodeRegion {
        words: vec![1, 2, 3, 4],
    };
    // A mix of valid, misaligned, and out-of-range offsets, with one
    // offset repeated: every entry gets its own outcome, and failures do
    // not stop the batch.
    let addresses = vec![0, 2, 16, 8, 8];
    let outcomes = region.apply_nop_batch(&addresses);
    assert_eq!(
        outcomes,
        vec![
            Ok(()),
            Err(PatchError::Misaligned),
            Err(PatchError::OutOfBounds),
            Ok(()),
            Ok(()),
        ]
    );
    assert_eq!(region.words, vec![NOP_INSTRUCTION, 2, NOP_INSTRUCTION, 4]);
}
