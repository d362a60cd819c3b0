use deet::word::{align_addr_to_word, extract_byte, replace_byte, WORD_SIZE};

#[test]
fn word_size_is_eight() {
    assert_eq!(WORD_SIZE, 8);
}

#[test]
fn align_rounds_down_to_word() {
    assert_eq!(align_addr_to_word(0), 0);
    assert_eq!(align_addr_to_word(7), 0);
    assert_eq!(align_addr_to_word(8), 8);
    assert_eq!(align_addr_to_word(0x1234_5677), 0x1234_5670);
    assert_eq!(align_addr_to_word(usize::MAX), usize::MAX - 7);
}

#[test]
fn extract_reads_each_byte() {
    let word: u64 = 0x1122_3344_5566_7788;
    assert_eq!(extract_byte(word, 0), 0x88);
    assert_eq!(extract_byte(word, 1), 0x77);
    assert_eq!(extract_byte(word, 6), 0x22);
    assert_eq!(extract_byte(word, 7), 0x11);
}

#[test]
fn replace_changes_only_target_byte() {
    let word: u64 = 0x1122_3344_5566_7788;
    let patched = replace_byte(word, 2, 0xcc);
    assert_eq!(patched, 0x1122_3344_55cc_7788);
    for k in 0..8 {
        if k != 2 {
            assert_eq!(extract_byte(patched, k), extract_byte(word, k));
        }
    }
    assert_eq!(extract_byte(patched, 2), 0xcc);
}

#[test]
fn patch_and_restore_round_trips() {
    // Patching a trap byte in and the original byte back restores the
    // exact word, non-target bytes included.
    let word: u64 = 0xdead_beef_0102_0304;
    for k in 0..8 {
        let original = extract_byte(word, k);
        let trapped = replace_byte(word, k, 0xcc);
        let restored = replace_byte(trapped, k, original);
        assert_eq!(restored, word);
    }
}
