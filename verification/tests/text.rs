use kaikei_voice::text::{
    contains, decimal_text, ends_with, join, same, signed_decimal_text, without_spaces,
};
use kaikei_voice::whisper::{clean_transcript, transcript};

fn strings(parts: &[&str]) -> Vec<String> {
    parts.iter().map(|s| s.to_string()).collect()
}

fn in_white_space_table(c: char) -> bool {
    matches!(
        c,
        '\u{9}'..='\u{d}'
            | ' '
            | '\u{85}'
            | '\u{a0}'
            | '\u{1680}'
            | '\u{2000}'..='\u{200a}'
            | '\u{2028}'
            | '\u{2029}'
            | '\u{202f}'
            | '\u{205f}'
            | '\u{3000}'
    )
}

#[test]
fn white_space_table_is_complete() {
    for n in 0..=0x10ffff_u32 {
        if let Some(c) = char::from_u32(n) {
            let cut = clean_transcript(&c.to_string()).is_empty();
            assert_eq!(cut, in_white_space_table(c), "U+{:04X}", n);
        }
    }
}

#[test]
fn trims_both_ends_and_nothing_else() {
    assert_eq!(clean_transcript("  売上 \n\t 千円\u{3000}\n"), "売上 \n\t 千円");
    assert_eq!(clean_transcript(" \n "), "");
    assert_eq!(clean_transcript(""), "");
    assert_eq!(clean_transcript("x"), "x");
}

#[test]
fn trimming_twice_is_trimming_once() {
    let once = clean_transcript(" a b ");
    assert_eq!(clean_transcript(&once), once);
}

#[test]
fn transcript_decodes_and_trims() {
    assert_eq!(transcript(&"\n 現金 \n".as_bytes().to_vec()), "現金");
    assert_eq!(transcript(&b" \xff ok\n".to_vec()), "\u{fffd} ok");
    assert_eq!(transcript(&Vec::new()), "");
}

#[test]
fn finds_parts() {
    assert!(contains("my-encoder-1.onnx", "encoder"));
    assert!(contains("encoder", "encoder"));
    assert!(contains("xencoder", "encoder"));
    assert!(!contains("encode", "encoder"));
    assert!(!contains("", "e"));
    assert!(contains("", ""));
    assert!(contains("会計音声", "音声"));
}

#[test]
fn finds_suffixes() {
    assert!(ends_with("a.int8.onnx", ".int8.onnx"));
    assert!(ends_with("a.int8.onnx", ".onnx"));
    assert!(!ends_with("a.onnx", ".int8.onnx"));
    assert!(!ends_with("a.onnx.bak", ".onnx"));
    assert!(ends_with("a", ""));
}

#[test]
fn compares_strings() {
    assert!(same("tokens.txt", "tokens.txt"));
    assert!(!same("tokens.txt", "tokens.tx"));
    assert!(!same("tokens.txt", "Tokens.txt"));
    assert!(same("", ""));
}

#[test]
fn removes_only_plain_spaces() {
    assert_eq!(without_spaces(" 売 上 高 "), "売上高");
    assert_eq!(without_spaces("a\tb\u{3000}c"), "a\tb\u{3000}c");
    assert_eq!(without_spaces(""), "");
}

#[test]
fn writes_numbers() {
    assert_eq!(decimal_text(0), "0");
    assert_eq!(decimal_text(9), "9");
    assert_eq!(decimal_text(10), "10");
    assert_eq!(decimal_text(8766), "8766");
    assert_eq!(decimal_text(1234567890), "1234567890");
    assert_eq!(decimal_text(u64::MAX), u64::MAX.to_string());
    assert_eq!(signed_decimal_text(-1), "-1");
    assert_eq!(signed_decimal_text(0), "0");
    assert_eq!(signed_decimal_text(i32::MIN), i32::MIN.to_string());
    assert_eq!(signed_decimal_text(i32::MAX), i32::MAX.to_string());
}

#[test]
fn joins_with_separators_between() {
    assert_eq!(join(&strings(&[]), " / "), "");
    assert_eq!(join(&strings(&["a"]), " / "), "a");
    assert_eq!(join(&strings(&["a", "", "c"]), " / "), "a /  / c");
}
