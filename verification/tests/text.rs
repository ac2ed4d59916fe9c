use plugin_lua_cygnixy::text::{is_blank, is_whitespace};

#[test]
fn whitespace_agrees_with_std_on_every_char() {
    let mut count = 0;
    for code in 0..=0x10FFFFu32 {
        if let Some(c) = char::from_u32(code) {
            assert_eq!(is_whitespace(c), c.is_whitespace(), "U+{:04X}", code);
            if is_whitespace(c) {
                count += 1;
            }
        }
    }
    assert_eq!(count, 25);
}

#[test]
fn whitespace_on_the_edges_of_its_ranges() {
    assert!(!is_whitespace('\u{8}'));
    assert!(is_whitespace('\t'));
    assert!(is_whitespace('\n'));
    assert!(is_whitespace('\u{B}'));
    assert!(is_whitespace('\u{C}'));
    assert!(is_whitespace('\r'));
    assert!(!is_whitespace('\u{E}'));
    assert!(is_whitespace(' '));
    assert!(is_whitespace('\u{85}'));
    assert!(is_whitespace('\u{A0}'));
    assert!(is_whitespace('\u{1680}'));
    assert!(!is_whitespace('\u{180E}'));
    assert!(!is_whitespace('\u{1FFF}'));
    assert!(is_whitespace('\u{2000}'));
    assert!(is_whitespace('\u{200A}'));
    assert!(!is_whitespace('\u{200B}'));
    assert!(is_whitespace('\u{2028}'));
    assert!(is_whitespace('\u{2029}'));
    assert!(is_whitespace('\u{202F}'));
    assert!(is_whitespace('\u{205F}'));
    assert!(is_whitespace('\u{3000}'));
    assert!(!is_whitespace('\u{FEFF}'));
    assert!(!is_whitespace('a'));
    assert!(!is_whitespace('0'));
}

#[test]
fn empty_text_is_blank() {
    assert!(is_blank(""));
}

#[test]
fn whitespace_only_text_is_blank() {
    assert!(is_blank(" "));
    assert!(is_blank("   "));
    assert!(is_blank("\t\r\n"));
    assert!(is_blank(" \u{A0}\u{2003}\u{3000} "));
}

#[test]
fn text_with_a_visible_character_is_not_blank() {
    assert!(!is_blank("a"));
    assert!(!is_blank("  a"));
    assert!(!is_blank("a  "));
    assert!(!is_blank("  a  "));
    assert!(!is_blank(" \u{200B} "));
    assert!(!is_blank("https://example/webhook"));
}

#[test]
fn blank_agrees_with_trimming_to_nothing() {
    let samples = [
        "",
        " ",
        "x",
        " x",
        "x ",
        "\n\n",
        "\u{85}",
        "\u{1680}\u{2028}",
        "\u{FEFF}",
        "héllo wörld",
        "   .   ",
        "\u{2000}\u{2001}\u{2002}\u{2003}\u{2004}\u{2005}\u{2006}\u{2007}\u{2008}\u{2009}\u{200A}",
    ];
    for sample in samples {
        assert_eq!(is_blank(sample), sample.trim().is_empty(), "{:?}", sample);
    }
}
