use yang_rs::codegen::{format_docstring, sanitize_identifier, yang_to_rust_type};
use yang_rs::path::{ascend_path, chars_of, child_path_string, path_key_string, root_path_string};
use yang_rs::text::{parse_bool, parse_i64, str_equal, strip_quotes};

#[test]
fn decimal_integers() {
    assert_eq!(parse_i64("0"), Some(0));
    assert_eq!(parse_i64("007"), Some(7));
    assert_eq!(parse_i64("-0"), Some(0));
    assert_eq!(parse_i64("+15"), Some(15));
    assert_eq!(parse_i64("-15"), Some(-15));
    assert_eq!(parse_i64("9223372036854775807"), Some(i64::MAX));
    assert_eq!(parse_i64("-9223372036854775808"), Some(i64::MIN));
    assert_eq!(parse_i64("9223372036854775808"), None);
    assert_eq!(parse_i64("-9223372036854775809"), None);
    assert_eq!(parse_i64("99999999999999999999999"), None);
    assert_eq!(parse_i64(""), None);
    assert_eq!(parse_i64("+"), None);
    assert_eq!(parse_i64("-"), None);
    assert_eq!(parse_i64("1 "), None);
    assert_eq!(parse_i64(" 1"), None);
    assert_eq!(parse_i64("1-"), None);
    assert_eq!(parse_i64("--1"), None);
    assert_eq!(parse_i64("1.5"), None);
    assert_eq!(parse_i64("٣"), None);
}

#[test]
fn decimal_integers_agree_with_the_standard_reading() {
    let texts = [
        "0",
        "-1",
        "+1",
        "12345",
        "-0012",
        "",
        "x",
        "9223372036854775807",
        "9223372036854775808",
        "-9223372036854775808",
        "-9223372036854775809",
        "+-1",
        "1_000",
    ];
    for text in texts {
        assert_eq!(parse_i64(text), text.parse::<i64>().ok(), "for {:?}", text);
    }
}

#[test]
fn booleans_are_true_or_false_and_nothing_else() {
    assert_eq!(parse_bool("true"), Some(true));
    assert_eq!(parse_bool("false"), Some(false));
    assert_eq!(parse_bool("True"), None);
    assert_eq!(parse_bool(""), None);
    assert_eq!(parse_bool("true "), None);
}

#[test]
fn equal_strings() {
    assert!(str_equal("", ""));
    assert!(str_equal("abc", "abc"));
    assert!(!str_equal("abc", "abd"));
    assert!(!str_equal("abc", "ab"));
    assert!(!str_equal("ab", "abc"));
    assert!(str_equal("é", "é"));
}

#[test]
fn quotes_come_off() {
    assert_eq!(strip_quotes("\"abc\""), "abc");
    assert_eq!(strip_quotes("''"), "");
    assert_eq!(strip_quotes("xyz"), "y");
    assert_eq!(strip_quotes("«é»"), "é");
}

#[test]
fn characters_of_a_string() {
    assert_eq!(chars_of(""), Vec::<char>::new());
    assert_eq!(chars_of("aé€"), vec!['a', 'é', '€']);
}

#[test]
fn paths() {
    assert_eq!(root_path_string(), "/");
    assert_eq!(child_path_string("/", "a"), "/a/");
    assert_eq!(child_path_string("/a/", "b"), "/a/b/");
    assert_eq!(path_key_string("/a/b/", "g"), "/a/b/g");
    assert_eq!(path_key_string("/", "g"), "/g");
}

#[test]
fn ascending() {
    assert_eq!(ascend_path("/a/b/c/"), "/a/b/");
    assert_eq!(ascend_path("/a/b/"), "/a/");
    assert_eq!(ascend_path("/a/"), "/");
    assert_eq!(ascend_path("/"), "/");
    assert_eq!(ascend_path(""), "/");
    assert_eq!(ascend_path("/é/€/"), "/é/");
    assert_eq!(ascend_path("/a//"), "/a/");
    assert_eq!(ascend_path("/a/b"), "/a/");
    assert_eq!(ascend_path("ab/"), "/");
}

#[test]
fn documentation_lines() {
    assert_eq!(format_docstring(&Some("The hostname".to_string())), " The hostname");
    assert_eq!(format_docstring(&Some(String::new())), " ");
    assert_eq!(format_docstring(&None), "");
}

#[test]
fn rust_types_of_yang_types() {
    let expected = [
        ("int8", "i8"),
        ("int16", "i16"),
        ("int32", "i32"),
        ("int64", "i64"),
        ("uint8", "u8"),
        ("uint16", "u16"),
        ("uint32", "u32"),
        ("uint64", "u64"),
        ("string", "String"),
        ("boolean", "bool"),
        ("empty", "()"),
    ];
    for (yang, rust) in expected {
        assert_eq!(yang_to_rust_type(yang), Some(rust));
    }
    assert!(yang_to_rust_type("decimal64").is_some());
    assert_eq!(yang_to_rust_type("binary"), None);
    assert_eq!(yang_to_rust_type("Int8"), None);
    assert_eq!(yang_to_rust_type(" int8"), None);
    assert_eq!(yang_to_rust_type(""), None);
}

#[test]
fn identifiers_without_hyphens() {
    assert_eq!(sanitize_identifier("leaf-list-name"), "leaf_list_name");
    assert_eq!(sanitize_identifier("plain"), "plain");
    assert_eq!(sanitize_identifier(""), "");
    assert_eq!(sanitize_identifier("--"), "__");
    assert_eq!(sanitize_identifier("é-€_x"), "é_€_x");
}
