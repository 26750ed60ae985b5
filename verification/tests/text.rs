use buildstructor::codegen::{alias_name, single_plural_names, singular_name};
use buildstructor::derive::quoted;
use buildstructor::lower::module_name;
use buildstructor::text::{
    concat2, concat3, decimal_string, ends_with, find_char, is_whitespace, join_strings,
    rfind_char, split_double_colon, str_eq, strip_prefix_char, strip_suffix, trim,
};

#[test]
fn strings_are_compared_by_their_characters() {
    assert!(str_eq("", ""));
    assert!(str_eq("Option", "Option"));
    assert!(!str_eq("Option", "Options"));
    assert!(!str_eq("Option", "option"));
    assert!(str_eq("bücher", "bücher"));
}

#[test]
fn suffixes_are_found_at_the_end_only() {
    assert!(ends_with("HashSet", "Set"));
    assert!(ends_with("Set", "Set"));
    assert!(ends_with("Set", ""));
    assert!(!ends_with("Settings", "Set"));
    assert!(!ends_with("et", "Set"));
    assert_eq!(strip_suffix("try_new", "_new"), Some("try".to_string()));
    assert_eq!(strip_suffix("_new", "_new"), Some(String::new()));
    assert_eq!(strip_suffix("new", "_new"), None);
}

#[test]
fn one_leading_character_is_stripped() {
    assert_eq!(strip_prefix_char("_a", '_'), Some("a".to_string()));
    assert_eq!(strip_prefix_char("__a", '_'), Some("_a".to_string()));
    assert_eq!(strip_prefix_char("a_", '_'), None);
    assert_eq!(strip_prefix_char("", '_'), None);
}

#[test]
fn the_first_and_the_last_position_of_a_character() {
    assert_eq!(find_char("a\"b\"c", '"'), Some(1));
    assert_eq!(rfind_char("a\"b\"c", '"'), Some(3));
    assert_eq!(find_char("abc", '"'), None);
    assert_eq!(rfind_char("abc", '"'), None);
    assert_eq!(find_char("ü\"", '"'), Some(1));
}

#[test]
fn texts_are_put_one_after_the_other() {
    assert_eq!(concat2("and_", "option"), "and_option");
    assert_eq!(concat3("__", "Foo", "Builder"), "__FooBuilder");
    assert_eq!(join_strings(&vec![], ", "), "");
    assert_eq!(join_strings(&vec!["a".to_string()], ", "), "a");
    assert_eq!(join_strings(&vec!["a".to_string(), "b".to_string(), "c".to_string()], ", "), "a, b, c");
}

#[test]
fn white_space_is_trimmed_at_both_ends() {
    assert_eq!(trim("  The name \t\n"), "The name");
    assert_eq!(trim("name"), "name");
    assert_eq!(trim(" \u{a0} "), "");
    assert_eq!(trim(""), "");
    assert_eq!(trim("a b"), "a b");
}

#[test]
fn white_space_is_the_unicode_property() {
    let spaces: Vec<u32> = (0x09..=0x0Du32)
        .chain([0x20, 0x85, 0xA0, 0x1680])
        .chain(0x2000..=0x200A)
        .chain([0x2028, 0x2029, 0x202F, 0x205F, 0x3000])
        .collect();
    assert_eq!(spaces.len(), 25);
    let mut found = 0;
    for n in 0..=0x10FFFFu32 {
        if let Some(c) = char::from_u32(n) {
            assert_eq!(is_whitespace(c), spaces.contains(&n), "{n:#x}");
            assert_eq!(is_whitespace(c), c.is_whitespace(), "{n:#x}");
            if is_whitespace(c) {
                found += 1;
            }
        }
    }
    assert_eq!(found, 25);
    for c in ['\u{8}', '\u{e}', '\u{1f}', '\u{180e}', '\u{200b}', '\u{2060}', '\u{feff}', 'a', '_'] {
        assert!(!is_whitespace(c));
    }
}

#[test]
fn every_kind_of_white_space_is_trimmed() {
    assert_eq!(trim("\u{3000}\u{2003} wide\u{a0}space \u{2028}\u{85}\r\n"), "wide\u{a0}space");
    assert_eq!(trim("\u{200b}zero width\u{200b}"), "\u{200b}zero width\u{200b}");
    for text in ["", " ", "\u{1680}x\u{205f}", "\u{b} \u{c}y", " a  b ", "\u{202f}\u{2029}"] {
        assert_eq!(trim(text), text.trim());
    }
}

#[test]
fn numbers_are_written_in_decimal() {
    assert_eq!(decimal_string(0), "0");
    assert_eq!(decimal_string(7), "7");
    assert_eq!(decimal_string(10), "10");
    assert_eq!(decimal_string(109), "109");
    assert_eq!(decimal_string(12345), "12345");
}

#[test]
fn a_path_is_split_at_double_colons() {
    assert_eq!(split_double_colon("__T"), vec!["__T".to_string()]);
    assert_eq!(split_double_colon("a::b"), vec!["a".to_string(), "b".to_string()]);
    assert_eq!(split_double_colon(""), vec![String::new()]);
    assert_eq!(split_double_colon("::a"), vec![String::new(), "a".to_string()]);
    assert_eq!(split_double_colon("a:::b"), vec!["a".to_string(), ":b".to_string()]);
    assert_eq!(split_double_colon("a:b"), vec!["a:b".to_string()]);
}

#[test]
fn the_singular_of_a_plural_names_the_accessor() {
    assert_eq!(
        single_plural_names("addresses"),
        ("address".to_string(), "addresses".to_string())
    );
    assert_eq!(single_plural_names("ages"), ("age".to_string(), "ages".to_string()));
    assert_eq!(single_plural_names("headers"), ("header".to_string(), "headers".to_string()));
}

#[test]
fn a_name_that_is_its_own_singular_gets_entry() {
    assert_eq!(single_plural_names("sheep"), ("sheep_entry".to_string(), "sheep".to_string()));
    assert_eq!(single_plural_names("map"), ("map_entry".to_string(), "map".to_string()));
    assert_eq!(single_plural_names("vec"), ("vec_entry".to_string(), "vec".to_string()));
}

#[test]
fn the_accessor_takes_the_singular_unless_it_is_the_name() {
    assert_eq!(singular_name("boxes", "box".to_string()), "box");
    assert_eq!(singular_name("data", "data".to_string()), "data_entry");
    assert_eq!(singular_name("", String::new()), "_entry");
}

#[test]
fn the_alias_and_the_module_are_named_after_target_and_factory() {
    assert_eq!(alias_name("FakeNew", "Request"), "FakeNewRequestBuilder");
    assert_eq!(module_name("request", "fake_new"), "__request_fake_new_builder");
}

#[test]
fn the_words_of_a_doc_comment_stand_between_the_quotes() {
    assert_eq!(quoted("#[doc = \" The name\"]"), " The name");
    assert_eq!(quoted("#[doc = \" say \\\"hi\\\" \"]"), " say \\\"hi\\\" ");
    assert_eq!(quoted("#[doc(hidden)]"), "[doc(hidden)]");
    assert_eq!(quoted("#[doc = '\"']"), "");
    assert_eq!(quoted(""), "");
    assert_eq!(quoted("\"\""), "");
}
