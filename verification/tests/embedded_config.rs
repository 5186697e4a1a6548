use visuara::embedded_config::{
    build_marker_slot, config_magic, find_subslice, slot_payload, to_slot_bytes, EmbedError, EmbeddedConfig,
    CONFIG_MAGIC_LEN, CONFIG_SLOT_SIZE,
};

fn template_with_slot() -> Vec<u8> {
    let mut t: Vec<u8> = b"\x7fELF fake client binary prologue".to_vec();
    t.extend_from_slice(&build_marker_slot());
    t.extend_from_slice(b"trailing code and data");
    t
}

#[test]
fn marker_slot_is_magic_then_empty_slot() {
    let slot = build_marker_slot();
    assert_eq!(slot.len(), CONFIG_MAGIC_LEN + CONFIG_SLOT_SIZE);
    assert_eq!(&slot[..CONFIG_MAGIC_LEN], b"VISUARA_EMBEDDED_CONFIG_V1\0");
    assert!(slot[CONFIG_MAGIC_LEN..].iter().all(|b| *b == 0));
    assert_eq!(config_magic(), b"VISUARA_EMBEDDED_CONFIG_V1\0".to_vec());
}

#[test]
fn unpatched_binary_carries_no_config() {
    let t = template_with_slot();
    assert_eq!(EmbeddedConfig::find_in_binary(&t), None);
    assert_eq!(EmbeddedConfig::find_in_binary(&build_marker_slot()), None);
    assert_eq!(EmbeddedConfig::find_in_binary(b"no marker in here"), None);
    // The marker at the very end, with nothing after it.
    assert_eq!(EmbeddedConfig::find_in_binary(&config_magic()), None);
}

#[test]
fn patches_and_reads_back_template_binary() {
    let template = template_with_slot();
    let json = br#"{"server_url":"wss://visuara.example.com/ws","device_name":"warehouse-pc-04"}"#;
    let patched = EmbeddedConfig::patch_binary(json, &template).expect("patch template");
    assert_eq!(patched.len(), template.len(), "patching must not change file size");
    let found = EmbeddedConfig::find_in_binary(&patched).expect("marker should be present in a patched binary");
    assert_eq!(found, json.to_vec());
    let prefix = b"\x7fELF fake client binary prologue".len();
    assert_eq!(&patched[..prefix], &template[..prefix]);
    assert_eq!(&patched[patched.len() - 22..], b"trailing code and data");
}

#[test]
fn patch_errors_in_order() {
    assert_eq!(EmbeddedConfig::patch_binary(b"{}", b"no marker"), Err(EmbedError::NoMarker));
    let mut short = config_magic();
    short.extend_from_slice(&[0u8; 10]);
    assert_eq!(EmbeddedConfig::patch_binary(b"{}", &short), Err(EmbedError::TruncatedSlot));
    let big = vec![b'x'; CONFIG_SLOT_SIZE + 1];
    assert_eq!(EmbeddedConfig::patch_binary(&big, &template_with_slot()), Err(EmbedError::TooLarge(CONFIG_SLOT_SIZE + 1)));
}

#[test]
fn slot_bytes_pad_with_nulls_and_refuse_oversize() {
    let s = to_slot_bytes(b"{}").unwrap();
    assert_eq!(s.len(), CONFIG_SLOT_SIZE);
    assert_eq!(&s[..2], b"{}");
    assert!(s[2..].iter().all(|b| *b == 0));
    assert_eq!(to_slot_bytes(&vec![1u8; CONFIG_SLOT_SIZE + 5]), Err(EmbedError::TooLarge(CONFIG_SLOT_SIZE + 5)));
    assert_eq!(slot_payload(b"abc\0def"), b"abc".to_vec());
    assert_eq!(slot_payload(b"abc"), b"abc".to_vec());
}

#[test]
fn find_subslice_finds_first_occurrence() {
    assert_eq!(find_subslice(b"abcabc", b"bc"), Some(1));
    assert_eq!(find_subslice(b"abc", b"x"), None);
    assert_eq!(find_subslice(b"ab", b"abc"), None);
}

#[test]
fn embed_errors_read_as_the_server_reports_them() {
    assert_eq!(EmbedError::TruncatedSlot.message(), "template binary's config slot is truncated");
    assert_eq!(EmbedError::TooLarge(5000).message(), "embedded config is 5000 bytes, exceeds the 4096-byte slot");
    assert!(EmbedError::NoMarker.message().starts_with("template binary has no embedded-config marker"));
}

#[test]
fn repatching_replaces_the_earlier_config() {
    let template = template_with_slot();
    let first = br#"{"server_url":"wss://a.example/ws","device_name":"one"}"#;
    let second = br#"{"server_url":"wss://b.example/ws","device_name":null}"#;
    let p1 = EmbeddedConfig::patch_binary(first, &template).unwrap();
    assert_eq!(EmbeddedConfig::patch_binary(first, &p1).unwrap(), p1);
    let p2 = EmbeddedConfig::patch_binary(second, &p1).unwrap();
    assert_eq!(p2, EmbeddedConfig::patch_binary(second, &template).unwrap());
    assert_eq!(EmbeddedConfig::find_in_binary(&p2), Some(second.to_vec()));
}
