use css_class_lsp::context::{get_word_prefix, is_in_class_attribute};
use css_class_lsp::position::{offset_in, position_to_offset, Position};

fn pos(line: u32, character: u32) -> Position {
    Position { line, character }
}

#[test]
fn offset_of_ascii_positions() {
    let text = "ab\ncde\n";
    assert_eq!(position_to_offset(text, pos(0, 0)), Some(0));
    assert_eq!(position_to_offset(text, pos(0, 2)), Some(2));
    assert_eq!(position_to_offset(text, pos(1, 1)), Some(4));
    assert_eq!(position_to_offset(text, pos(1, 3)), Some(6));
    assert_eq!(position_to_offset(text, pos(2, 0)), Some(7));
}

#[test]
fn offset_past_line_or_text_is_none() {
    let text = "ab\ncde";
    assert_eq!(position_to_offset(text, pos(0, 3)), None);
    assert_eq!(position_to_offset(text, pos(2, 0)), None);
    assert_eq!(position_to_offset("", pos(0, 0)), Some(0));
    assert_eq!(position_to_offset("", pos(0, 1)), None);
}

#[test]
fn offset_counts_utf16_units() {
    // U+1F600 takes two UTF-16 units, U+00E9 one.
    let text = "a\u{1F600}\u{e9}b";
    assert_eq!(position_to_offset(text, pos(0, 1)), Some(1));
    assert_eq!(position_to_offset(text, pos(0, 2)), None);
    assert_eq!(position_to_offset(text, pos(0, 3)), Some(2));
    assert_eq!(position_to_offset(text, pos(0, 4)), Some(3));
    assert_eq!(position_to_offset(text, pos(0, 5)), Some(4));
    assert_eq!(position_to_offset(text, pos(0, 6)), None);
}

#[test]
fn offset_round_trip_on_every_char() {
    let text: Vec<char> = "x\u{1F600}y\nz\n\u{e9}".chars().collect();
    let mut line = 0u32;
    let mut col = 0u32;
    for o in 0..=text.len() {
        assert_eq!(offset_in(&text, line, col), Some(o));
        if o < text.len() {
            if text[o] == '\n' {
                line += 1;
                col = 0;
            } else {
                col += text[o].len_utf16() as u32;
            }
        }
    }
}

#[test]
fn class_attribute_open_after_quote() {
    assert!(is_in_class_attribute("<div class=\"", pos(0, 12)));
    assert!(is_in_class_attribute("<div className='", pos(0, 16)));
    assert!(is_in_class_attribute("<div class = \"btn ", pos(0, 18)));
}

#[test]
fn class_attribute_closed_after_matching_quote() {
    assert!(!is_in_class_attribute("<div class=\"btn\" ", pos(0, 17)));
    assert!(!is_in_class_attribute("<div className='a' ", pos(0, 19)));
    // the other quote kind does not close the value
    assert!(is_in_class_attribute("<div class=\"it's ", pos(0, 17)));
}

#[test]
fn class_attribute_nearest_opener_decides() {
    let text = "<a class=\"x\"><b class='y";
    assert!(is_in_class_attribute(text, pos(0, 24)));
    let text = "<a class=\"x\"><b class='y'> ";
    assert!(!is_in_class_attribute(text, pos(0, 27)));
    let text = "<a class=\"x";
    assert!(is_in_class_attribute(text, pos(0, 11)));
}

#[test]
fn class_attribute_needs_word_start_and_quote() {
    assert!(!is_in_class_attribute("<div myclass=\"", pos(0, 14)));
    assert!(!is_in_class_attribute("<div class=", pos(0, 11)));
    assert!(!is_in_class_attribute("<div id=\"", pos(0, 9)));
    assert!(!is_in_class_attribute("<div class=\"", pos(3, 0)));
}

#[test]
fn class_attribute_on_later_line() {
    let text = "<div\n  class=\"a\n b";
    assert!(is_in_class_attribute(text, pos(2, 2)));
}

#[test]
fn word_prefix_after_boundary_is_empty() {
    assert_eq!(get_word_prefix("<div class=\"", pos(0, 12)), "");
    assert_eq!(get_word_prefix("<div class=\"btn ", pos(0, 16)), "");
    assert_eq!(get_word_prefix("<div class='a\t", pos(0, 14)), "");
}

#[test]
fn word_prefix_is_run_before_cursor() {
    assert_eq!(get_word_prefix("<div class=\"btn btn-p", pos(0, 21)), "btn-p");
    assert_eq!(get_word_prefix("<div class=\"btn-p\">", pos(0, 17)), "btn-p");
    assert_eq!(get_word_prefix("abc", pos(0, 2)), "ab");
    assert_eq!(get_word_prefix("abc", pos(0, 9)), "");
}

#[test]
fn class_attribute_needs_unicode_word_boundary() {
    assert!(!is_in_class_attribute("\u{e9}class='", pos(0, 8)));
    assert!(!is_in_class_attribute("x\u{301}class=\"", pos(0, 9)));
    assert!(!is_in_class_attribute("\u{416}class=\"", pos(0, 8)));
    assert!(is_in_class_attribute("-class=\"", pos(0, 8)));
    assert!(is_in_class_attribute("\u{e9} class='", pos(0, 9)));
}
