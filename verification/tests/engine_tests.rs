use hfs_nfd::laws::{check_table_closed, check_table_injective};
use hfs_nfd::{
    compose_from_hfs_nfd, compose_hangul_jamos, decomopse_hangul_syllable, decompose_into_hfs_nfd,
    is_hangul_conjoinable_jamo, is_hangul_precomposed_syllable,
};

#[test]
fn empty_input_test() {
    assert_eq!(decompose_into_hfs_nfd(""), "");
    assert_eq!(compose_from_hfs_nfd(""), "");
    assert_eq!(compose_hangul_jamos(""), "");
}

#[test]
fn pokemon_scenario_test() {
    let decomposed = decompose_into_hfs_nfd("Pok\u{00E9}mon");
    assert_eq!(&decomposed, "Poke\u{0301}mon");
    assert_eq!(&compose_from_hfs_nfd(&decomposed), "Pok\u{00E9}mon");
}

#[test]
fn hangul_syllable_scenario_test() {
    let decomposed = decompose_into_hfs_nfd("한");
    assert_eq!(&decomposed, "\u{1112}\u{1161}\u{11AB}");
    assert_eq!(&compose_from_hfs_nfd(&decomposed), "한");
}

#[test]
fn mixed_script_round_trip_test() {
    let source = "caf\u{00E9} 한글 ASCII ポプラ 123";
    let decomposed = decompose_into_hfs_nfd(source);
    assert_ne!(decomposed, source);
    assert_eq!(compose_from_hfs_nfd(&decomposed), source);
}

#[test]
fn longest_match_preference_test() {
    // "e" + macron alone composes to the shorter match.
    assert_eq!(compose_from_hfs_nfd("e\u{0304}"), "\u{0113}");
    // Adding the grave accent must give the longer match instead.
    assert_eq!(compose_from_hfs_nfd("e\u{0304}\u{0300}"), "\u{1E15}");
    // An extending character that fits no entry falls back to the
    // shorter match and passes through.
    assert_eq!(compose_from_hfs_nfd("e\u{0304}x"), "\u{0113}x");
    // The same along the longer iota-subscript chain.
    assert_eq!(compose_from_hfs_nfd("\u{0391}\u{0345}"), "\u{1FBC}");
    assert_eq!(compose_from_hfs_nfd("\u{0391}\u{0345}\u{0313}"), "\u{1F88}");
}

#[test]
fn table_closed_test() {
    // The shipped table is decompose-closed: the idempotence law's
    // hypothesis holds of it.
    assert!(check_table_closed());
}

#[test]
fn table_injective_test() {
    // The shipped table holds no duplicate keys and no duplicate
    // decompositions: the entry-form round-trip law applies to it.
    assert!(check_table_injective());
}

#[test]
fn decompose_idempotent_scenario_test() {
    let source = "Pok\u{00E9}mon 한글 \u{1F96}\u{30DD}";
    let once = decompose_into_hfs_nfd(source);
    let twice = decompose_into_hfs_nfd(&once);
    assert_eq!(once, twice);
}

#[test]
fn hangul_round_trip_each_test() {
    for c in ['가', '각', '한', '힣', '쀍'] {
        let decomposed = decomopse_hangul_syllable(c);
        assert!(decomposed.chars().all(is_hangul_conjoinable_jamo));
        assert_eq!(compose_hangul_jamos(&decomposed), c.to_string());
    }
}

#[test]
fn hangul_lv_syllable_test() {
    // A syllable with no trailing consonant decomposes into two jamo.
    assert_eq!(decomopse_hangul_syllable('가'), "\u{1100}\u{1161}");
    // The index-zero trailing filler is absorbed as a no-op.
    assert_eq!(compose_hangul_jamos("\u{1100}\u{1161}\u{11A7}"), "가");
}

#[test]
fn hangul_identity_on_other_text_test() {
    assert_eq!(decomopse_hangul_syllable('A'), "A");
    assert_eq!(compose_hangul_jamos("abc def"), "abc def");
    assert!(!is_hangul_precomposed_syllable('A'));
    assert!(!is_hangul_conjoinable_jamo('A'));
}

#[test]
fn passthrough_test() {
    // Characters with no table entry and no Hangul relationship are
    // unchanged by both operations, alone and mixed.
    let s = "QW8-_#中文漢字\u{FFFD}";
    assert_eq!(decompose_into_hfs_nfd(s), s);
    assert_eq!(compose_from_hfs_nfd(s), s);
}

#[test]
fn compose_error_free_on_lone_marks_test() {
    // Lone combining marks and half-finished sequences come out verbatim.
    assert_eq!(compose_from_hfs_nfd("\u{0301}"), "\u{0301}");
    assert_eq!(compose_from_hfs_nfd("e\u{0327}"), "e\u{0327}");
    assert_eq!(compose_from_hfs_nfd("\u{0391}\u{0345}\u{0345}"), "\u{1FBC}\u{0345}");
}
