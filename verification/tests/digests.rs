use storage_executor::digest::{fingerprint, fingerprint_text, hex};
use storage_executor::host_lock::HOST_STORAGE_LOCK_PATH;
use storage_executor::json::{quoted, texts_literal, Parts};
use storage_executor::order::sorted_set;
use storage_executor::paths::{
    absolute_path, file_name, same_path, segments_of, trimmed, valid_loop_path,
};
use storage_executor::text::{decimal, is_lower_hex_digest, join_path, parse_u64, safe_absolute_path};
use storage_executor::MUTATION_ENABLED;

#[test]
fn approval_digest_validation_is_strict() {
    assert!(is_lower_hex_digest(&"a".repeat(64)));
    assert!(!is_lower_hex_digest(&"A".repeat(64)));
    assert!(!is_lower_hex_digest(&"a".repeat(63)));
    assert!(!is_lower_hex_digest("not-a-digest"));
}

#[test]
fn preconditions_digest_validation_is_strict() {
    assert!(is_lower_hex_digest(&"a".repeat(64)));
    assert!(!is_lower_hex_digest(&"A".repeat(64)));
    assert!(!is_lower_hex_digest(&"a".repeat(63)));
    assert!(!is_lower_hex_digest("not-a-digest"));
}

#[test]
fn mutation_flag_remains_disabled() {
    assert!(!std::hint::black_box(MUTATION_ENABLED));
}

#[test]
fn mutation_api_remains_disabled() {
    assert!(!std::hint::black_box(MUTATION_ENABLED));
    assert_eq!(
        HOST_STORAGE_LOCK_PATH,
        "/run/lock/linux-storage-manager/storage.lock"
    );
}

#[test]
fn fingerprints_are_the_lower_hex_sha256_of_the_bytes() {
    assert_eq!(
        fingerprint(b"abc"),
        "ba7816bf8f01cfea414140de5dae2223b00361a396177a9cb410ff61f20015ad"
    );
    assert_eq!(
        fingerprint_text(""),
        "e3b0c44298fc1c149afbf4c8996fb92427ae41e4649b934ca495991b7852b855"
    );
    assert_eq!(hex(&vec![0x00, 0x0f, 0xf0, 0xff]), "000ff0ff");
    assert!(is_lower_hex_digest(&fingerprint(b"abc")));
}

#[test]
fn quoted_text_is_a_json_string() {
    assert_eq!(quoted("plain"), "\"plain\"");
    assert_eq!(quoted("a\"b\\c\n"), "\"a\\\"b\\\\c\\n\"");
    assert_eq!(quoted("\u{1}"), "\"\\u0001\"");
    assert_eq!(
        quoted("\u{8}\t\n\u{c}\r\u{1f}\u{7f}/\u{e9}\u{1f600}"),
        "\"\\b\\t\\n\\f\\r\\u001f\u{7f}/\u{e9}\u{1f600}\""
    );
}

#[test]
fn different_texts_have_different_literals() {
    let texts: Vec<String> = (0u8..128).map(|byte| char::from(byte).to_string()).collect();
    let mut literals: Vec<String> = texts.iter().map(|text| quoted(text)).collect();
    literals.push(quoted(""));
    literals.push(quoted("\\n"));
    literals.push(quoted("\\u0001"));
    literals.push(quoted("a,b"));
    literals.push(quoted("a\",\"b"));
    let count = literals.len();
    assert_eq!(sorted_set(&literals).len(), count);
}

#[test]
fn parts_write_what_serde_json_writes() {
    let mut parts = Parts::new();
    parts.push_number(1);
    parts.push_text("two");
    parts.push_bool(false);
    parts.push_opt_text(&None);
    parts.push(texts_literal(&vec!["x".to_owned(), "y".to_owned()]));
    assert_eq!(
        parts.array(),
        serde_json::to_string(&(1, "two", false, None::<String>, ["x", "y"])).unwrap()
    );
    let mut fields = Parts::new();
    fields.field_text("name", "value");
    fields.field_number("count", u64::MAX);
    fields.field_opt_text("absent", &None);
    assert_eq!(
        fields.object(),
        "{\"name\":\"value\",\"count\":18446744073709551615,\"absent\":null}"
    );
}

#[test]
fn decimals_are_written_and_read() {
    assert_eq!(decimal(0), "0");
    assert_eq!(decimal(u64::MAX), "18446744073709551615");
    assert_eq!(parse_u64("18446744073709551615"), Some(u64::MAX));
    assert_eq!(parse_u64("18446744073709551616"), None);
    assert_eq!(parse_u64("+7"), Some(7));
    assert_eq!(parse_u64("007"), Some(7));
    assert_eq!(parse_u64("+"), None);
    assert_eq!(parse_u64(""), None);
    assert_eq!(parse_u64("-1"), None);
    assert_eq!(parse_u64("1 "), None);
    assert_eq!(parse_u64("++1"), None);
}

#[test]
fn sorted_sets_are_ascending_and_without_repetition() {
    let items = ["--b", "--a", "--b", "--", "--ab"].map(str::to_owned).to_vec();
    assert_eq!(sorted_set(&items), ["--", "--a", "--ab", "--b"]);
    assert!(sorted_set(&Vec::new()).is_empty());
}

#[test]
fn loop_path_boundary_rejects_partitions_and_non_loop_devices() {
    assert!(valid_loop_path("/dev/loop0"));
    assert!(valid_loop_path("/dev/loop42"));
    assert!(!valid_loop_path("/dev/loop"));
    assert!(!valid_loop_path("/dev/loop7p1"));
    assert!(!valid_loop_path("/dev/sda"));
    assert!(!valid_loop_path("loop7"));
}

#[test]
fn paths_agree_by_component() {
    assert!(same_path("/a/b", "/a//b/"));
    assert!(same_path("/a/./b", "/a/b"));
    assert!(!same_path("/a/b", "a/b"));
    assert!(!same_path("/a/../b", "/b"));
    assert!(!same_path("./a", "a"));
    assert!(absolute_path("/"));
    assert!(!absolute_path(""));
    assert_eq!(segments_of("/a//b/."), ["a", "b"]);
    assert_eq!(file_name("/usr/bin/udevadm").as_deref(), Some("udevadm"));
    assert_eq!(file_name("/usr/bin/udevadm/").as_deref(), Some("udevadm"));
    assert_eq!(file_name("/usr/.."), None);
    assert_eq!(file_name("/"), None);
    assert_eq!(join_path("/a", "b"), "/a/b");
    assert_eq!(join_path("/a/", "b"), "/a/b");
    assert_eq!(trimmed(" \t x y\n"), "x y");
    assert_eq!(trimmed("\u{3000}x\u{a0}"), "x");
}

#[test]
fn safe_paths_are_absolute_and_plain() {
    assert!(safe_absolute_path("/dev/mapper/vg0-root"));
    assert!(!safe_absolute_path("dev/mapper"));
    assert!(!safe_absolute_path("/dev/../etc"));
    assert!(!safe_absolute_path("/dev/x\0"));
}
