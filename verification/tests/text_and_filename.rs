use module_lexer::parser::parse_filename;
use module_lexer::text::find_index_of;
use module_lexer::text::trim_end_index;
use module_lexer::text::utf16_offset_at;

fn units(s: &str) -> Vec<u16> {
    s.encode_utf16().collect()
}

#[test]
fn trim_skips_whitespace_and_semicolons() {
    let code = units("ab;  ;");
    assert_eq!(trim_end_index(&code, 6), 2);
    assert_eq!(trim_end_index(&code, 3), 2);
    assert_eq!(trim_end_index(&code, 2), 2);
}

#[test]
fn trim_of_all_trivial_prefix_is_identity() {
    let code = units(";;;   ");
    assert_eq!(trim_end_index(&code, 6), 6);
    assert_eq!(trim_end_index(&code, 3), 3);
    assert_eq!(trim_end_index(&code, 0), 0);
}

#[test]
fn trim_clamps_past_the_end() {
    let code = units("a;");
    assert_eq!(trim_end_index(&code, 99), 1);
}

#[test]
fn trim_handles_unicode_whitespace() {
    // ideographic space U+3000 then a semicolon
    let code = units("x\u{3000};");
    assert_eq!(trim_end_index(&code, 3), 1);
}

#[test]
fn find_returns_first_match_position() {
    let code = units("let x = import('m')");
    let pat = units("(");
    assert_eq!(find_index_of(&code, &pat, 0), 14);
    assert_eq!(find_index_of(&code, &pat, 14), 14);
    assert_eq!(find_index_of(&code, &pat, 15), 15);
}

#[test]
fn find_falls_back_to_start_offset() {
    let code = units("abcdef");
    let pat = units("(");
    assert_eq!(find_index_of(&code, &pat, 2), 2);
    let word = units("default");
    assert_eq!(find_index_of(&code, &word, 4), 4);
}

#[test]
fn find_locates_a_word() {
    let code = units("export  default   42");
    let pat = units("default");
    assert_eq!(find_index_of(&code, &pat, 6), 8);
}

#[test]
fn utf16_offsets_count_surrogate_pairs() {
    // 'a' is 1 byte / 1 unit, U+1F600 is 4 bytes / 2 units, 'é' 2 bytes / 1 unit
    let bytes: Vec<u8> = "a\u{1F600}b\u{e9}c".as_bytes().to_vec();
    assert_eq!(utf16_offset_at(&bytes, 0), 0);
    assert_eq!(utf16_offset_at(&bytes, 1), 1);
    assert_eq!(utf16_offset_at(&bytes, 5), 3);
    assert_eq!(utf16_offset_at(&bytes, 6), 4);
    assert_eq!(utf16_offset_at(&bytes, 8), 5);
    assert_eq!(utf16_offset_at(&bytes, 9), 6);
}

#[test]
fn parse_filename_classifies_tsx() {
    let info = parse_filename("tests/fixtures/index.tsx");
    assert_eq!(info.filename, "index.tsx");
    assert_eq!(info.extension, "tsx");
    assert!(info.is_typescript);
    assert!(info.is_jsx);
}

#[test]
fn parse_filename_plain_ts() {
    let info = parse_filename("/a/b/mod.ts");
    assert_eq!(info.filename, "mod.ts");
    assert_eq!(info.extension, "ts");
    assert!(info.is_typescript);
    assert!(!info.is_jsx);
}

#[test]
fn parse_filename_javascript() {
    let info = parse_filename("src/app.js");
    assert_eq!(info.extension, "js");
    assert!(!info.is_typescript);
    assert!(!info.is_jsx);
}

#[test]
fn parse_filename_jsx_without_typescript() {
    let info = parse_filename("component.jsx");
    assert_eq!(info.extension, "jsx");
    assert!(!info.is_typescript);
    assert!(info.is_jsx);
}

#[test]
fn parse_filename_without_extension_or_slash() {
    let info = parse_filename("Makefile");
    assert_eq!(info.filename, "Makefile");
    assert_eq!(info.extension, "Makefile");
    assert!(!info.is_typescript);
}

#[test]
fn parse_filename_with_dotted_directory() {
    // the extension comes from the base name, not from directory dots
    let info = parse_filename("bundle.v2/entry.mts");
    assert_eq!(info.filename, "entry.mts");
    assert_eq!(info.extension, "mts");
    assert!(info.is_typescript);
    assert!(!info.is_jsx);
}
