use hachimi_core::markup::{is_markup_word, restore_markup_lines, IsolateTags};

fn sections(s: &str) -> Vec<(String, bool)> {
    let mut it = IsolateTags::new(s);
    let mut out = Vec::new();
    while let Some((a, b, plain)) = it.next_section() {
        out.push((s[a..b].to_string(), plain));
    }
    out
}

fn owned(v: &[(&str, bool)]) -> Vec<(String, bool)> {
    v.iter().map(|(s, b)| (s.to_string(), *b)).collect()
}

#[test]
fn tags_with_closing_tags_are_isolated() {
    assert_eq!(
        sections("hello <b>world</b> end"),
        owned(&[("hello ", true), ("<b>", false), ("world", true), ("</b> ", false), ("end", true)])
    );
}

#[test]
fn tag_with_value_is_isolated() {
    assert_eq!(
        sections("<size=16>big</size>"),
        owned(&[("<size=16>", false), ("big", true), ("</size>", false)])
    );
}

#[test]
fn tag_without_closing_tag_is_text() {
    assert_eq!(sections("<b>no close"), owned(&[("<b>no close", true)]));
    assert_eq!(sections("a <notatag"), owned(&[("a ", true), ("<notatag", true)]));
}

#[test]
fn expressions_are_isolated() {
    assert_eq!(sections("$(name) x"), owned(&[("$(name) ", false), ("x", true)]));
    assert_eq!(sections("ab$(x)"), owned(&[("ab", true), ("$(x)", false)]));
}

#[test]
fn sections_cover_the_text() {
    for s in ["", "plain", "<i>a</i><b>b</b>", "x $(y) <z>w</z> $", "日本<b>語</b>"] {
        let joined: String = sections(s).into_iter().map(|(t, _)| t).collect();
        assert_eq!(joined, s);
    }
}

#[test]
fn empty_text_has_no_section() {
    let mut it = IsolateTags::new("");
    assert_eq!(it.next_section(), None);
}


#[test]
fn markup_words() {
    assert!(is_markup_word("<b>"));
    assert!(is_markup_word("<size=16>"));
    assert!(is_markup_word("$(name)"));
    assert!(is_markup_word("$()"));
    assert!(!is_markup_word("<b"));
    assert!(!is_markup_word("word"));
    assert!(!is_markup_word("$x)"));
    assert!(!is_markup_word(""));
}

#[test]
fn markup_goes_with_the_next_word() {
    let m = vec![true, false, false, true, false, true];
    assert_eq!(restore_markup_lines(&m, &vec![2, 1]), vec![(0, 3), (3, 6)]);
    assert_eq!(restore_markup_lines(&m, &vec![1, 1, 1]), vec![(0, 2), (2, 3), (3, 6)]);
}

#[test]
fn lines_without_markup_are_kept() {
    assert_eq!(restore_markup_lines(&vec![false, false, false], &vec![2, 1]), vec![(0, 2), (2, 3)]);
    assert_eq!(restore_markup_lines(&vec![true, true], &vec![0]), vec![(0, 2)]);
    assert_eq!(restore_markup_lines(&vec![], &vec![]), vec![]);
}
