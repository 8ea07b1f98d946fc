use blocon::codec::{decode, encode, parse_canon_u32};
use blocon::config::SharePointConfig;
use blocon::errors::ConfigError;
use blocon::text::{parse_clamped, u32_to_dec};

fn full_entity() -> SharePointConfig {
    let mut c = SharePointConfig::default();
    c.user_name = "Jane Operator".to_string();
    c.tenant_id = "tenant-123".to_string();
    c.client_id = "client-456".to_string();
    c.client_secret = "s3cr3t=with=equals".to_string();
    c.site_id = "site-789".to_string();
    c.site_hostname = "contoso.sharepoint.com".to_string();
    c.site_path = "/sites/plant".to_string();
    c.events_list_id = "11111111-aaaa".to_string();
    c.snapshots_library_id = "22222222-bbbb".to_string();
    c.failures_list_id = "33333333-cccc".to_string();
    c.components_list_id = "44444444-dddd".to_string();
    c.events_snapshot_threshold_kb = 250;
    c.timeout_s = 45;
    c
}

#[test]
fn encode_decode_round_trips_full_entity() {
    let e = full_entity();
    let blob = encode(&e);
    let decoded = decode(blob.as_str()).expect("blob must decode");
    assert_eq!(decoded, e);
}

#[test]
fn encode_decode_round_trips_default_entity() {
    let e = SharePointConfig::default();
    let blob = encode(&e);
    let decoded = decode(blob.as_str()).expect("blob must decode");
    assert_eq!(decoded, e);
}

#[test]
fn encode_is_deterministic() {
    let e = full_entity();
    assert_eq!(encode(&e), encode(&e));
}

#[test]
fn decode_rejects_garbage() {
    assert_eq!(decode("this is not a blob"), Err(ConfigError::Decode));
    assert_eq!(decode(""), Err(ConfigError::Decode));
}

#[test]
fn decode_rejects_truncated_blob() {
    let e = full_entity();
    let blob = encode(&e);
    let cut: String = blob.chars().take(blob.chars().count() / 2).collect();
    assert_eq!(decode(cut.as_str()), Err(ConfigError::Decode));
}

#[test]
fn decode_rejects_trailing_bytes() {
    let e = full_entity();
    let mut blob = encode(&e);
    blob.push('x');
    assert_eq!(decode(blob.as_str()), Err(ConfigError::Decode));
}

#[test]
fn u32_to_dec_exact_values() {
    assert_eq!(u32_to_dec(0), "0");
    assert_eq!(u32_to_dec(7), "7");
    assert_eq!(u32_to_dec(42), "42");
    assert_eq!(u32_to_dec(1000), "1000");
    assert_eq!(u32_to_dec(4294967295), "4294967295");
}

#[test]
fn canonical_u32_parse_accepts_only_canonical_positive() {
    assert_eq!(parse_canon_u32("1"), Some(1));
    assert_eq!(parse_canon_u32("42"), Some(42));
    assert_eq!(parse_canon_u32("4294967295"), Some(4294967295));
    assert_eq!(parse_canon_u32("0"), None);
    assert_eq!(parse_canon_u32("042"), None);
    assert_eq!(parse_canon_u32(""), None);
    assert_eq!(parse_canon_u32("12a"), None);
    assert_eq!(parse_canon_u32("4294967296"), None);
}

#[test]
fn clamped_parse_exact_values() {
    assert_eq!(parse_clamped("0"), Some(1));
    assert_eq!(parse_clamped("-5"), Some(1));
    assert_eq!(parse_clamped("abc"), None);
    assert_eq!(parse_clamped("3.7"), Some(4));
    assert_eq!(parse_clamped("3.4"), Some(3));
    assert_eq!(parse_clamped("2.5"), Some(3));
    assert_eq!(parse_clamped("+12"), Some(12));
    assert_eq!(parse_clamped("-0.4"), Some(1));
    assert_eq!(parse_clamped(".5"), Some(1));
    assert_eq!(parse_clamped("3."), Some(3));
    assert_eq!(parse_clamped(""), None);
    assert_eq!(parse_clamped("."), None);
    assert_eq!(parse_clamped("1.2.3"), None);
    assert_eq!(parse_clamped("99999999999"), Some(u32::MAX));
}
