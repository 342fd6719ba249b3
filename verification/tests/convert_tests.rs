use hfs_nfd::{compose_from_hfs_nfd, decompose_into_hfs_nfd};

fn examinee() -> Vec<(&'static str, &'static str)> {
    vec![
        ("Pokémonポケモン", "Pokémonポケモン"),
        ("ポプテピピック", "ポプテピピック"),
        ("ポプテピピックボブネミミッミ", "ポプテピピックボブネミミッミ"),
        ("ボブ・サップ", "ボブ・サップ"),
        ("ḹ₥קσƧƨῗɓŁḕ", "\u{006C}\u{0323}\u{0304}₥קσƧƨ\u{03B9}\u{0308}\u{0342}ɓŁ\u{0065}\u{0304}\u{0300}" ),
        ("σου πονηρὸς ᾖ ὅλον τὸ", "σου πονηρ\u{03BF}\u{0300}ς \u{03B7}\u{0345}\u{0313}\u{0342} \u{03BF}\u{0314}\u{0301}λον τ\u{03BF}\u{0300}"),
        ("Université", "Université"),
        ("D:\\‰{'é“H'ê\\−w›ï”'\\fiúŒ{ŠÕ'°ŒÆ›u−w›ï\\vol.27-no.5 ... - J-Stage", "D:\\‰{\'e\u{301}“H\'e\u{302}\\−w›i\u{308}”\'\\fiu\u{301}Œ{S\u{30c}O\u{303}\'°ŒÆ›u−w›i\u{308}\\vol.27-no.5 ... - J-Stage"),
        ("チョイ・ボンゲ(Choi Bounge / 최번개)", "チョイ・ボンゲ(Choi Bounge / 최번개)"),
        ("ハン・ジュリ(Han Juri / 한주리)", "ハン・ジュリ(Han Juri / 한주리)"),
        ("チョイ・ボンゲ최번개ハン・ジュリ한주리", "チョイ・ボンゲ최번개ハン・ジュリ한주리"),
        ("か카ka아a에éゲ게gé", "か카ka아a에éゲ게gé"),
    ]
}

fn examinee_immutable() -> Vec<&'static str> {
    vec![
        "Immutable",
        "Can't be changed",
        "かわらない",
        "ヘンカナシ",
        "不変",
    ]
}

#[test]
fn decompose_fixed_strings_test() {
    for (composed, decomposed) in examinee() {
        let converted = decompose_into_hfs_nfd(composed);
        assert_eq!(&converted, decomposed);
    }
}

#[test]
fn compose_from_fixed_strings_test() {
    for (composed, decomposed) in examinee() {
        let converted = compose_from_hfs_nfd(decomposed);
        assert_eq!(&converted, composed);
    }
}

#[test]
fn compose_already_composed_fixed_strings_test() {
    for (composed, _) in examinee() {
        let converted = compose_from_hfs_nfd(composed);
        assert_eq!(&converted, composed);
    }
}

#[test]
fn decompose_already_deomposed_identity_fixed_strings_test() {
    for (_, decomposed) in examinee() {
        let converted = decompose_into_hfs_nfd(decomposed);
        assert_eq!(&converted, decomposed);
    }
}

#[test]
fn compose_immutable_fixed_strings_test() {
    for s in examinee_immutable() {
        let converted = compose_from_hfs_nfd(s);
        assert_eq!(&converted, s);
    }
}

#[test]
fn decompose_immutable_fixed_strings_test() {
    for s in examinee_immutable() {
        let converted = decompose_into_hfs_nfd(s);
        assert_eq!(&converted, s);
    }
}
