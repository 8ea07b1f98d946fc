use blocon::config::SharePointConfig;
use blocon::mirror::{config_from_env, config_from_mirror_text, get_env, parse_env, set_value};

#[test]
fn default_entity_renders_expected_mirror_text() {
    let c = SharePointConfig::default();
    let expected = "USER_NAME=\n\
                    \n\
                    SP_TENANT_ID=\n\
                    SP_CLIENT_ID=\n\
                    SP_CLIENT_SECRET=\n\
                    \n\
                    SP_SITE_ID=\n\
                    SP_SITE_HOSTNAME=your-hostname-here.sharepoint.com\n\
                    SP_SITE_PATH=/sites/your-site-name\n\
                    \n\
                    SP_GRAPH_BASE=https://graph.microsoft.com/v1.0\n\
                    SP_GRAPH_SCOPE=https://graph.microsoft.com/.default\n\
                    SP_TIMEOUT_S=30\n\
                    \n\
                    SP_EVENTS_LIST_ID=\n\
                    SP_EVENTS_LIST_NAME=eventsBLOCON\n\
                    SP_EVENTS_SNAPSHOT_THRESHOLD_KB=100\n\
                    SP_EVENTS_FIELD_KIND=kind\n\
                    SP_EVENTS_FIELD_TS=timestamp\n\
                    SP_EVENTS_FIELD_ACTOR=actor\n\
                    SP_EVENTS_FIELD_VERSION=version\n\
                    SP_EVENTS_FIELD_PAYLOAD=payload\n\
                    SP_EVENTS_FIELD_SNAPSHOT_FILE=snapshot_file\n\
                    SP_SNAPSHOTS_LIBRARY_ID=\n\
                    SP_SNAPSHOTS_LIBRARY_NAME=snapshotsBLOCON\n\
                    \n\
                    SP_FAILURES_LIST_ID=\n\
                    SP_FAILURES_LIST_NAME=KKS_Failures\n\
                    SP_FAILURES_FIELD_COMPONENT=Component_ID\n\
                    SP_FAILURES_FIELD_DATE=failure_date\n\
                    SP_FAILURES_FIELD_TYPE=type_failure\n\
                    \n\
                    SP_COMPONENTS_LIST_ID=\n\
                    SP_COMPONENTS_LIST_NAME=Unit\n\
                    SP_COMPONENTS_FIELD_ID=kks\n\
                    SP_COMPONENTS_FIELD_NAME=kks_name\n\
                    SP_COMPONENTS_FIELD_SUBTYPE=Subtype_Text\n\
                    SP_COMPONENTS_FIELD_TYPE=Type_text\n\
                    SP_COMPONENTS_FIELD_INSID=insID\n";
    assert_eq!(c.to_env_format(), expected);
}

#[test]
fn mirror_text_round_trips_non_empty_fields() {
    let mut c = SharePointConfig::default();
    c.user_name = "Jane".to_string();
    c.tenant_id = "tenant-123".to_string();
    c.client_id = "client-456".to_string();
    c.client_secret = "secret-789".to_string();
    c.site_id = "site-1".to_string();
    c.events_list_id = "list-a".to_string();
    c.snapshots_library_id = "lib-b".to_string();
    c.failures_list_id = "list-c".to_string();
    c.components_list_id = "list-d".to_string();
    c.events_snapshot_threshold_kb = 512;
    c.timeout_s = 120;
    let text = c.to_env_format();
    let back = config_from_mirror_text(text.as_str());
    assert_eq!(back, c);
}

#[test]
fn comments_blanks_and_unknown_keys_are_ignored() {
    let text = "# a comment\n\n   \nUNKNOWN_KEY=zzz\nSP_TENANT_ID=abc\n  # indented comment\n";
    let c = config_from_mirror_text(text);
    assert_eq!(c.tenant_id, "abc");
    assert_eq!(c.client_id, "");
    assert_eq!(c.site_hostname, "your-hostname-here.sharepoint.com");
}

#[test]
fn values_are_trimmed_and_unquoted() {
    let c = config_from_mirror_text("SP_TENANT_ID =   abc  \nSP_CLIENT_ID=\"quoted\"\nSP_CLIENT_SECRET='single'\n");
    assert_eq!(c.tenant_id, "abc");
    assert_eq!(c.client_id, "quoted");
    assert_eq!(c.client_secret, "single");
}

#[test]
fn only_one_quote_pair_is_stripped() {
    let c = config_from_mirror_text("SP_TENANT_ID=\"\"double\"\"\n");
    assert_eq!(c.tenant_id, "\"double\"");
}

#[test]
fn value_may_contain_equals_sign() {
    let c = config_from_mirror_text("SP_CLIENT_SECRET=abc=def=ghi\n");
    assert_eq!(c.client_secret, "abc=def=ghi");
}

#[test]
fn empty_value_keeps_the_default() {
    let c = config_from_mirror_text("SP_SITE_HOSTNAME=\nSP_FAILURES_LIST_NAME=\n");
    assert_eq!(c.site_hostname, "your-hostname-here.sharepoint.com");
    assert_eq!(c.failures_list_name, "KKS_Failures");
}

#[test]
fn numeric_values_are_clamped_and_rounded() {
    assert_eq!(config_from_mirror_text("SP_TIMEOUT_S=0\n").timeout_s, 1);
    assert_eq!(config_from_mirror_text("SP_TIMEOUT_S=-5\n").timeout_s, 1);
    assert_eq!(config_from_mirror_text("SP_TIMEOUT_S=abc\n").timeout_s, 30);
    assert_eq!(config_from_mirror_text("SP_TIMEOUT_S=3.7\n").timeout_s, 4);
    assert_eq!(
        config_from_mirror_text("SP_EVENTS_SNAPSHOT_THRESHOLD_KB=0.2\n")
            .events_snapshot_threshold_kb,
        1
    );
    assert_eq!(
        config_from_mirror_text("SP_EVENTS_SNAPSHOT_THRESHOLD_KB=oops\n")
            .events_snapshot_threshold_kb,
        100
    );
}

#[test]
fn later_lines_overwrite_earlier_ones() {
    let c = config_from_mirror_text("SP_TENANT_ID=first\nSP_TENANT_ID=second\n");
    assert_eq!(c.tenant_id, "second");
}

#[test]
fn parse_env_keeps_pairs_in_line_order() {
    let pairs = parse_env("A=1\nB=2\n# skip\nA=3\n");
    let flat: Vec<(String, String)> = pairs;
    assert_eq!(flat.len(), 3);
    assert_eq!(flat[0], ("A".to_string(), "1".to_string()));
    assert_eq!(flat[1], ("B".to_string(), "2".to_string()));
    assert_eq!(flat[2], ("A".to_string(), "3".to_string()));
    assert_eq!(get_env(&flat, "A"), Some("3".to_string()));
    assert_eq!(get_env(&flat, "C"), None);
}

#[test]
fn set_value_skips_missing_and_empty() {
    let pairs = parse_env("PRESENT=yes\nEMPTY=\n");
    let mut target = "default".to_string();
    set_value(&mut target, &pairs, "MISSING");
    assert_eq!(target, "default");
    set_value(&mut target, &pairs, "EMPTY");
    assert_eq!(target, "default");
    set_value(&mut target, &pairs, "PRESENT");
    assert_eq!(target, "yes");
}

#[test]
fn config_from_env_applies_known_keys() {
    let pairs = parse_env("SP_TENANT_ID=t\nSP_CLIENT_ID=c\nSP_CLIENT_SECRET=s\n");
    let c = config_from_env(&pairs);
    assert_eq!(c.tenant_id, "t");
    assert_eq!(c.client_id, "c");
    assert_eq!(c.client_secret, "s");
    assert_eq!(c.timeout_s, 30);
}

#[test]
fn lines_without_equals_or_key_are_ignored() {
    let c = config_from_mirror_text("no equals here\n=value-without-key\nSP_TENANT_ID=ok\n");
    assert_eq!(c.tenant_id, "ok");
}
