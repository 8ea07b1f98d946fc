use blocon::codec::decode;
use blocon::config::{validate_required, SharePointConfig};
use blocon::errors::ConfigError;
use blocon::store::{ConfigManager, ConfigSources};

fn manager() -> ConfigManager {
    ConfigManager::new("/home/user/.local/share")
}

fn valid_entity() -> SharePointConfig {
    let mut c = SharePointConfig::default();
    c.tenant_id = "tenant-123".to_string();
    c.client_id = "client-456".to_string();
    c.client_secret = "secret-789".to_string();
    c
}

fn no_sources() -> ConfigSources {
    ConfigSources { blob: None, mirror: None, cwd_mirror: None }
}

#[test]
fn new_resolves_fixed_paths() {
    let m = manager();
    assert_eq!(m.config_dir, "/home/user/.local/share/Blocon");
    assert_eq!(m.config_file, "/home/user/.local/share/Blocon/config.dat");
    assert_eq!(m.env_file, "/home/user/.local/share/Blocon/.env");
    assert_eq!(m.get_env_path(), "/home/user/.local/share/Blocon/.env");
}

#[test]
fn has_config_checks_both_persisted_forms() {
    let m = manager();
    assert!(!m.has_config(&no_sources()));
    let blob_only = ConfigSources {
        blob: Some("x".to_string()),
        mirror: None,
        cwd_mirror: None,
    };
    assert!(m.has_config(&blob_only));
    let mirror_only = ConfigSources {
        blob: None,
        mirror: Some("x".to_string()),
        cwd_mirror: None,
    };
    assert!(m.has_config(&mirror_only));
    let cwd_only = ConfigSources {
        blob: None,
        mirror: None,
        cwd_mirror: Some("x".to_string()),
    };
    assert!(!m.has_config(&cwd_only));
}

#[test]
fn save_produces_decodable_blob_and_mirror_text() {
    let m = manager();
    let e = valid_entity();
    let bundle = m.save_config(&e).expect("valid entity must save");
    assert_eq!(decode(bundle.blob.as_str()).expect("blob decodes"), e);
    assert_eq!(bundle.mirror, e.to_env_format());
}

#[test]
fn save_rejects_missing_credentials() {
    let m = manager();
    let mut e = valid_entity();
    e.tenant_id = String::new();
    assert!(matches!(m.save_config(&e), Err(ConfigError::MissingCredentials)));
    let mut e = valid_entity();
    e.client_id = String::new();
    assert!(matches!(m.save_config(&e), Err(ConfigError::MissingCredentials)));
    let mut e = valid_entity();
    e.client_secret = String::new();
    assert!(matches!(m.save_config(&e), Err(ConfigError::MissingCredentials)));
}

#[test]
fn validate_required_accepts_exactly_complete_credentials() {
    assert!(validate_required(&valid_entity()).is_ok());
    assert_eq!(
        validate_required(&SharePointConfig::default()),
        Err(ConfigError::MissingCredentials)
    );
}

#[test]
fn load_prefers_the_blob() {
    let m = manager();
    let e = valid_entity();
    let bundle = m.save_config(&e).unwrap();
    let sources = ConfigSources {
        blob: Some(bundle.blob),
        mirror: Some("SP_TENANT_ID=other\nSP_CLIENT_ID=o\nSP_CLIENT_SECRET=o\n".to_string()),
        cwd_mirror: None,
    };
    assert_eq!(m.load_config(&sources).unwrap(), e);
}

#[test]
fn corrupted_blob_falls_back_to_mirror_transparently() {
    let m = manager();
    let e = valid_entity();
    let bundle = m.save_config(&e).unwrap();
    let sources = ConfigSources {
        blob: Some("garbage, not a blob".to_string()),
        mirror: Some(bundle.mirror),
        cwd_mirror: None,
    };
    let loaded = m.load_config(&sources).expect("mirror must take over");
    assert_eq!(loaded, e);
}

#[test]
fn blob_loads_skip_validation() {
    // a previously saved blob is trusted even without credentials
    let m = manager();
    let e = SharePointConfig::default();
    let blob = blocon::codec::encode(&e);
    let sources = ConfigSources { blob: Some(blob), mirror: None, cwd_mirror: None };
    assert_eq!(m.load_config(&sources).unwrap(), e);
}

#[test]
fn fallback_mirror_is_validated() {
    let m = manager();
    let sources = ConfigSources {
        blob: None,
        mirror: Some("SP_TENANT_ID=only-tenant\n".to_string()),
        cwd_mirror: None,
    };
    assert_eq!(m.load_config(&sources), Err(ConfigError::MissingCredentials));
}

#[test]
fn cwd_mirror_is_the_last_resort() {
    let m = manager();
    let e = valid_entity();
    let bundle = m.save_config(&e).unwrap();
    let sources = ConfigSources {
        blob: None,
        mirror: None,
        cwd_mirror: Some(bundle.mirror),
    };
    assert_eq!(m.load_config(&sources).unwrap(), e);
}

#[test]
fn load_without_any_source_reports_not_found() {
    let m = manager();
    assert_eq!(m.load_config(&no_sources()), Err(ConfigError::NotFound));
}

#[test]
fn error_messages_name_the_failure() {
    assert_eq!(
        ConfigError::MissingCredentials.message(),
        "missing required credentials"
    );
    assert_eq!(ConfigError::NotFound.message(), "no configuration found");
    assert_eq!(ConfigError::Decode.message(), "malformed configuration blob");
}
