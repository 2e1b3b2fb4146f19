use bytez::language::{detect_language, Language};

#[test]
fn names_of_the_guesses() {
    assert_eq!(Language::Rust.name(), "Rust");
    assert_eq!(Language::Cpp.name(), "C++");
    assert_eq!(Language::Unknown.name(), "Unknown (Detection not conclusive)");
}

#[test]
fn use_token_is_rust() {
    assert_eq!(detect_language(b"use std::fmt;"), Language::Rust);
}

#[test]
fn enum_token_is_rust() {
    assert_eq!(detect_language(b"\x00\x00enum\x00"), Language::Rust);
}

#[test]
fn impl_token_is_rust() {
    assert_eq!(detect_language(b"impl Shape for Circle"), Language::Rust);
    assert_eq!(detect_language(b"simple"), Language::Rust);
    assert_eq!(detect_language(b"simile"), Language::Unknown);
}

#[test]
fn loop_token_is_rust() {
    assert_eq!(detect_language(b"loophole"), Language::Rust);
}

#[test]
fn if_token_is_cpp() {
    assert_eq!(detect_language(b"if"), Language::Cpp);
    assert_eq!(detect_language(b"life"), Language::Cpp);
}

#[test]
fn rust_takes_precedence_over_cpp() {
    assert_eq!(detect_language(b"if impl"), Language::Rust);
    assert_eq!(detect_language(b"impl if"), Language::Rust);
    assert_eq!(detect_language(b"int if for loop"), Language::Rust);
}

#[test]
fn fn_token_alone_fills_no_window() {
    assert_eq!(detect_language(b"fn "), Language::Unknown);
    assert_eq!(detect_language(b"fn main() {}"), Language::Unknown);
}

#[test]
fn fn_token_beside_a_matching_window_is_rust() {
    assert_eq!(detect_language(b"fn main() { loop {} }"), Language::Rust);
    assert_eq!(detect_language(b"\xff\xfe use fn \x00"), Language::Rust);
}

#[test]
fn int_token_alone_fills_no_window() {
    assert_eq!(detect_language(b"int"), Language::Unknown);
    assert_eq!(detect_language(b"int main() { return 0; }"), Language::Unknown);
}

#[test]
fn int_token_beside_a_matching_window_is_cpp() {
    assert_eq!(detect_language(b"int main() { if (1) return 0; }"), Language::Cpp);
}

#[test]
fn for_token_alone_fills_no_window() {
    assert_eq!(detect_language(b"for (;;) {}"), Language::Unknown);
}

#[test]
fn if_with_a_blank_is_read_as_cpp() {
    assert_eq!(detect_language(b"if x"), Language::Cpp);
}

#[test]
fn longer_rust_tokens_are_never_found() {
    assert_eq!(detect_language(b"struct"), Language::Unknown);
    assert_eq!(detect_language(b"trait"), Language::Unknown);
    assert_eq!(detect_language(b"match"), Language::Unknown);
    assert_eq!(detect_language(b"'a"), Language::Unknown);
}

#[test]
fn no_token_is_unknown() {
    assert_eq!(detect_language(b""), Language::Unknown);
    assert_eq!(detect_language(b"\x00"), Language::Unknown);
    assert_eq!(detect_language(b"hello, world"), Language::Unknown);
    assert_eq!(detect_language(&[0u8; 64]), Language::Unknown);
    assert_eq!(detect_language(&[0xffu8; 5]), Language::Unknown);
}

#[test]
fn tokens_are_case_sensitive() {
    assert_eq!(detect_language(b"IMPL LOOP ENUM USE IF"), Language::Unknown);
}
