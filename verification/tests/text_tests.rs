use hachimi_core::text::{
    add_size_tag, char_to_utf16_index, concat_unix_path, game_str_has_newline, get_masterdb_path,
    str_contains, str_equal, str_starts_with, str_visual_len, truncate_chars, utf16_to_char_index,
};
use hachimi_core::gui::should_show_option;
use unicode_width::UnicodeWidthChar;

fn utf16(s: &str) -> Vec<u16> {
    s.encode_utf16().collect()
}

fn chars(s: &str) -> Vec<char> {
    s.chars().collect()
}

#[test]
fn utf16_index_counts_surrogate_pairs() {
    assert_eq!(char_to_utf16_index("a😀b", 0), 0);
    assert_eq!(char_to_utf16_index("a😀b", 2), 3);
    assert_eq!(char_to_utf16_index("a😀b", 3), 4);
    assert_eq!(char_to_utf16_index("ab", 10), 2);
}

#[test]
fn char_index_from_utf16_offset() {
    assert_eq!(utf16_to_char_index("a😀b", 0), 0);
    assert_eq!(utf16_to_char_index("a😀b", 1), 1);
    assert_eq!(utf16_to_char_index("a😀b", 2), 2);
    assert_eq!(utf16_to_char_index("a😀b", 3), 2);
    assert_eq!(utf16_to_char_index("a😀b", 100), 3);
}

#[test]
fn utf16_index_round_trip() {
    let s = "x😀y日😀";
    for k in 0..=s.chars().count() {
        let u = char_to_utf16_index(s, k) as usize;
        assert_eq!(utf16_to_char_index(s, u), k);
    }
}

#[test]
fn visual_len_skips_markup_and_escapes() {
    assert_eq!(str_visual_len("<b>hi</b>"), 2);
    assert_eq!(str_visual_len("<size=16>abc</size>"), 3);
    assert_eq!(str_visual_len("a\\nb"), 2);
    assert_eq!(str_visual_len("x\\y"), 3);
    assert_eq!(str_visual_len(""), 0);
    assert_eq!(str_visual_len("日本"), 2);
}

#[test]
fn unix_paths_join_with_slash() {
    assert_eq!(concat_unix_path("a", "b"), "a/b");
    assert_eq!(concat_unix_path("https://x/y", "z.json"), "https://x/y/z.json");
    assert_eq!(get_masterdb_path("/data"), "/data/master/master.mdb");
}

#[test]
fn size_tag_wraps_text() {
    assert_eq!(add_size_tag("hi", 16), "<size=16>hi</size>");
    assert_eq!(add_size_tag("x", -5), "<size=-5>x</size>");
    assert_eq!(add_size_tag("", 0), "<size=0></size>");
    assert_eq!(add_size_tag("a", i32::MIN), "<size=-2147483648>a</size>");
    assert_eq!(add_size_tag("a", i32::MAX), "<size=2147483647>a</size>");
}

#[test]
fn newline_detection_in_game_strings() {
    assert!(game_str_has_newline(&utf16("a\nb")));
    assert!(game_str_has_newline(&utf16("a\\nb")));
    assert!(game_str_has_newline(&utf16("\\\\n")));
    assert!(!game_str_has_newline(&utf16("abc")));
    assert!(!game_str_has_newline(&utf16("\\")));
    assert!(!game_str_has_newline(&utf16("n\\")));
    assert!(!game_str_has_newline(&[]));
}

#[test]
fn truncate_without_ellipsis() {
    assert_eq!(truncate_chars(&chars("abcdef"), 3, false), Some(chars("abc")));
    assert_eq!(truncate_chars(&chars("abc"), 5, false), None);
    assert_eq!(truncate_chars(&chars("abc"), 3, false), None);
    assert_eq!(truncate_chars(&chars("日本語"), 4, false), Some(chars("日本")));
    assert_eq!(truncate_chars(&chars("日本語"), 3, false), Some(chars("日")));
    assert_eq!(truncate_chars(&chars("a"), 0, false), Some(vec![]));
    assert_eq!(truncate_chars(&[], 3, false), None);
}

#[test]
fn truncate_with_ellipsis() {
    assert_eq!(truncate_chars(&chars("abcdef"), 3, true), Some(chars("ab…")));
    assert_eq!(truncate_chars(&chars("abc"), 3, true), None);
    assert_eq!(truncate_chars(&chars("日本語"), 4, true), Some(chars("日…")));
    assert_eq!(truncate_chars(&chars("日本"), 4, true), None);
    assert_eq!(truncate_chars(&chars("ab"), 5, true), None);
}

#[test]
fn control_characters_take_no_column() {
    assert_eq!(truncate_chars(&chars("a\u{1}b\u{2}c"), 2, false), Some(chars("a\u{1}b")));
}

#[test]
fn substring_search() {
    assert!(str_contains("hello world", "o w"));
    assert!(str_contains("abc", ""));
    assert!(!str_contains("abc", "abcd"));
    assert!(!str_contains("abc", "ac"));
    assert!(str_starts_with("pt-br", "pt"));
    assert!(!str_starts_with("pt", "pt-br"));
    assert!(str_equal("zh-tw", "zh-tw"));
    assert!(!str_equal("zh-tw", "zh-cn"));
}

#[test]
fn settings_search_ignores_case() {
    assert!(should_show_option("", "Anything"));
    assert!(should_show_option("vol", "Master Volume"));
    assert!(should_show_option("VOL", "master volume"));
    assert!(!should_show_option("xyz", "Master Volume"));
}

#[test]
fn truncated_text_fits_its_width() {
    let cols = |v: &[char]| v.iter().map(|c| c.width().unwrap_or(0)).sum::<usize>();
    for text in ["abcdefgh", "日本語テキスト", "a日b本c", "ab"] {
        let c = chars(text);
        for width in 0..10 {
            if let Some(v) = truncate_chars(&c, width, false) {
                assert!(cols(&v) <= width);
            }
            if let Some(v) = truncate_chars(&c, width, true) {
                assert_eq!(*v.last().unwrap(), '…');
                assert!(cols(&v[..v.len() - 1]) <= width.saturating_sub(1));
            }
        }
    }
}

#[test]
fn visual_len_never_exceeds_char_count() {
    for s in ["", "<b>", "a\\nb", "\\\\n", "<<>>x", "日本<size=3>語</size>"] {
        assert!(str_visual_len(s) <= s.chars().count());
    }
}
