use hfs_nfd::table::{entry_at, table_entry_count};
use hfs_nfd::{compose_from_hfs_nfd, decompose_into_hfs_nfd};

fn try_decompose(src: char, target: &str) {
    assert_eq!(
        &decompose_into_hfs_nfd(&src.to_string()),
        target,
        "decomposition differs for U+{:04X}",
        src as u32
    );
}

fn try_compose(src: &str, target: char) {
    assert_eq!(
        compose_from_hfs_nfd(src),
        target.to_string(),
        "composition differs for target U+{:04X}",
        target as u32
    );
}

#[test]
fn normal_to_hfs_fixed() {
    let examinee = vec![
        ('À', "À"),
        ('é', "é"),
        ('ポ', "ポ"),
        ('ᾖ', "\u{03B7}\u{0345}\u{0313}\u{0342}"),
    ];
    for (composed, decomposed) in examinee {
        try_decompose(composed, decomposed);
    }
}

#[test]
fn hfs_to_normal_fixed() {
    let examinee = vec![
        ("ホ\u{309A}", 'ポ'),
        ("\u{03B7}\u{0345}\u{0313}\u{0342}", 'ᾖ'),
        ("\u{0391}\u{0345}", '\u{1FBC}'),
        ("\u{0391}\u{0345}\u{0313}", '\u{1F88}'),
        ("\u{0391}\u{0345}\u{0313}\u{0300}", '\u{1F8A}'),
        ("\u{0391}\u{0345}\u{0313}\u{0301}", '\u{1F8C}'),
    ];
    for (elements, target_composed) in examinee {
        try_compose(elements, target_composed);
    }
}

#[test]
fn hfs_to_normal_all() {
    let n = table_entry_count();
    for i in 0..n {
        let (composed, parts) = entry_at(i);
        let target: String = parts.iter().collect();
        try_decompose(composed, &target);
    }
}

#[test]
fn normal_to_hfs_all() {
    let n = table_entry_count();
    for i in 0..n {
        let (composed, parts) = entry_at(i);
        let source: String = parts.iter().collect();
        try_compose(&source, composed);
    }
}
