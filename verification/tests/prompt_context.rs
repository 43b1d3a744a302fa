//! Prompt composition and project-context clipping.

use droid_mcp_rs::prompt::{
    compose_prompt, context_read_limit, oversize_context_warning, process_context,
};

#[test]
fn context_is_framed_before_the_instruction() {
    let r = compose_prompt(
        &Some(String::from("CTX")),
        &Some(String::from("do it")),
    );
    assert_eq!(r, "<system_prompt>\nCTX\n</system_prompt>\n\ndo it");
}

#[test]
fn absent_context_leaves_the_instruction_alone() {
    let r = compose_prompt(&None, &Some(String::from("do it")));
    assert_eq!(r, "do it");
    let r2 = compose_prompt(&Some(String::from("CTX")), &None);
    assert_eq!(r2, "<system_prompt>\nCTX\n</system_prompt>\n\n");
}

#[test]
fn read_limit_skips_oversize_files() {
    assert_eq!(context_read_limit(100), Some(100));
    assert_eq!(context_read_limit(10 * 1024 * 1024), Some(1024 * 1024 + 4));
    assert_eq!(context_read_limit(10 * 1024 * 1024 + 1), None);
}

#[test]
fn oversize_warning_names_both_sizes() {
    assert_eq!(
        oversize_context_warning(20000000),
        "DROID.md is 20000000 bytes, exceeding the absolute maximum of 10485760 bytes and will be skipped."
    );
}

#[test]
fn empty_content_counts_as_absent() {
    let (content, warning) = process_context(0, &Vec::new());
    assert!(content.is_none());
    assert!(warning.is_none());
}

#[test]
fn blank_whole_file_counts_as_absent() {
    let bytes = b"  \n\t ".to_vec();
    let (content, warning) = process_context(bytes.len() as u64, &bytes);
    assert!(content.is_none());
    assert!(warning.is_none());
}

#[test]
fn small_valid_content_is_kept() {
    let bytes = "h\u{e9}llo".as_bytes().to_vec();
    let (content, warning) = process_context(bytes.len() as u64, &bytes);
    assert_eq!(content.as_deref(), Some("h\u{e9}llo"));
    assert!(warning.is_none());
}

#[test]
fn invalid_encoding_is_skipped_with_warning() {
    let bytes = vec![0xff, 0xfe, 0xfd];
    let (content, warning) = process_context(3, &bytes);
    assert!(content.is_none());
    assert_eq!(
        warning.as_deref(),
        Some("DROID.md contains invalid UTF-8 and was skipped.")
    );
}

#[test]
fn oversize_content_is_clipped_at_the_cap() {
    let cap = 1024 * 1024;
    let bytes = vec![b'a'; cap + 4];
    let (content, warning) = process_context(2000000, &bytes);
    let text = content.unwrap();
    assert_eq!(text.len(), cap);
    assert!(text.bytes().all(|b| b == b'a'));
    assert_eq!(
        warning.as_deref(),
        Some(
            "DROID.md is 2000000 bytes, exceeding the 1048576 byte limit and was truncated to 1048576 bytes."
        )
    );
}

#[test]
fn clip_retreats_to_a_valid_encoding_boundary() {
    let cap = 1024 * 1024;
    let mut bytes = vec![b'a'; cap - 1];
    bytes.extend_from_slice("\u{e9}\u{e9}".as_bytes());
    let file_size = bytes.len() as u64;
    let (content, warning) = process_context(file_size, &bytes);
    let text = content.unwrap();
    assert_eq!(text.len(), cap - 1);
    assert!(text.ends_with('a'));
    assert_eq!(
        warning.as_deref(),
        Some(
            "DROID.md is 1048579 bytes, exceeding the 1048576 byte limit and was truncated to 1048575 bytes."
        )
    );
}
