use type_explorer::encoder::handle_char;
use type_explorer::encoder::handle_string;
use type_explorer::encoder::handle_type;
use type_explorer::encoder::str_eq;

#[test]
fn char_single_ascii() {
    let r = handle_type(&"A".to_string(), &"char".to_string());
    assert_eq!(r.unwrap(), "[0, 0, 0, 41]");
}

#[test]
fn char_empty_text() {
    let r = handle_type(&"".to_string(), &"char".to_string());
    assert_eq!(
        r.unwrap_err().message,
        "Text must be exactly 1 character, not 0 characters."
    );
}

#[test]
fn char_two_characters() {
    let r = handle_type(&"AB".to_string(), &"char".to_string());
    assert_eq!(
        r.unwrap_err().message,
        "Text must be exactly 1 character, not 2 characters."
    );
}

#[test]
fn string_hello() {
    let r = handle_type(&"hello".to_string(), &"string".to_string());
    assert_eq!(r.unwrap(), "[68, 65, 6C, 6C, 6F]");
}

#[test]
fn i32_not_handled() {
    let r = handle_type(&"5".to_string(), &"i32".to_string());
    assert_eq!(r.unwrap_err().message, "Type `i32` not handled.");
}

#[test]
fn unknown_tag_named_verbatim() {
    let r = handle_type(&"abc".to_string(), &"float".to_string());
    assert_eq!(r.unwrap_err().message, "Type `float` not handled.");
}

#[test]
fn tag_match_is_case_sensitive() {
    let r = handle_type(&"A".to_string(), &"Char".to_string());
    assert_eq!(r.unwrap_err().message, "Type `Char` not handled.");
}

#[test]
fn char_multibyte_counts_as_one() {
    // U+20AC, a three-byte character, still counts as exactly one.
    let r = handle_type(&"\u{20ac}".to_string(), &"char".to_string());
    assert_eq!(r.unwrap(), "[0, 0, 20, AC]");
}

#[test]
fn char_arity_counts_characters_not_bytes() {
    // Two characters of two bytes each: the count reported is 2, not 4.
    let r = handle_type(&"\u{e9}\u{e9}".to_string(), &"char".to_string());
    assert_eq!(
        r.unwrap_err().message,
        "Text must be exactly 1 character, not 2 characters."
    );
}

#[test]
fn char_low_code_point_single_digit_tokens() {
    let r = handle_type(&"\n".to_string(), &"char".to_string());
    assert_eq!(r.unwrap(), "[0, 0, 0, A]");
}

#[test]
fn char_arity_count_with_two_digits() {
    let r = handle_type(&"exactlytwelv".to_string(), &"char".to_string());
    assert_eq!(
        r.unwrap_err().message,
        "Text must be exactly 1 character, not 12 characters."
    );
}

#[test]
fn string_empty_text() {
    let r = handle_type(&"".to_string(), &"string".to_string());
    assert_eq!(r.unwrap(), "[]");
}

#[test]
fn string_multibyte_bytes_in_order() {
    let r = handle_type(&"\u{20ac}".to_string(), &"string".to_string());
    assert_eq!(r.unwrap(), "[E2, 82, AC]");
}

#[test]
fn encode_is_idempotent_on_success() {
    let text = "hello".to_string();
    let tag = "string".to_string();
    let first = handle_type(&text, &tag).unwrap();
    let second = handle_type(&text, &tag).unwrap();
    assert_eq!(first, second);
}

#[test]
fn encode_is_idempotent_on_error() {
    let text = "too long".to_string();
    let tag = "char".to_string();
    let first = handle_type(&text, &tag).unwrap_err().message;
    let second = handle_type(&text, &tag).unwrap_err().message;
    assert_eq!(first, second);
}

#[test]
fn handle_char_direct() {
    assert_eq!(handle_char(&"0".to_string()).unwrap(), "[0, 0, 0, 30]");
    assert_eq!(
        handle_char(&"abc".to_string()).unwrap_err().message,
        "Text must be exactly 1 character, not 3 characters."
    );
}

#[test]
fn handle_string_direct() {
    assert_eq!(handle_string(&"Hi".to_string()).unwrap(), "[48, 69]");
}

#[test]
fn str_eq_compares_by_character() {
    assert!(str_eq("char", "char"));
    assert!(!str_eq("char", "Char"));
    assert!(!str_eq("char", "charx"));
    assert!(!str_eq("charx", "char"));
    assert!(str_eq("", ""));
}
