use vstd::prelude::*;

use crate::codec::{blob_of, decode, encode};
use crate::config::SharePointConfig;
use crate::errors::ConfigError;
use crate::mirror::{
    config_from_mirror_text, env_applied, env_update, mirror_text, spec_parse_env,
};
use crate::seal::{seal, unseal};

verus! {

/// The persisted inputs the application shell found on disk: the blob
/// file's text, the mirror file's text, and the text of a mirror file
/// in the current working directory, each present only when the file
/// existed and could be read.
pub struct ConfigSources {
    pub blob: Option<String>,
    pub mirror: Option<String>,
    pub cwd_mirror: Option<String>,
}

/// What one save writes to disk: the sealed blob text for the blob
/// path and the mirror text for the mirror path.
pub struct SaveBundle {
    pub blob: String,
    pub mirror: String,
}

/// The store's three immutable filesystem paths, resolved once from
/// the platform's per-user application data location.
pub struct ConfigManager {
    pub config_dir: String,
    pub config_file: String,
    pub env_file: String,
}

/// A blob text is recoverable when it is the serialization of some
/// well-formed entity.
pub open spec fn blob_recoverable(b: Seq<char>) -> bool {
    exists|c: SharePointConfig| c.wf() && b == blob_of(c)
}

/// The blob source is present and recoverable.
pub open spec fn blob_ok(sources: ConfigSources) -> bool {
    match sources.blob {
        Option::Some(b) => blob_recoverable(b@),
        Option::None => false,
    }
}

/// The fallback text the store will parse: the mirror path first,
/// then a mirror in the current working directory.
pub open spec fn fallback_text(sources: ConfigSources) -> Option<Seq<char>> {
    match sources.mirror {
        Option::Some(m) => Option::Some(m@),
        Option::None => match sources.cwd_mirror {
            Option::Some(m) => Option::Some(m@),
            Option::None => Option::None,
        },
    }
}

/// A mirror text carries credentials when all three required keys end
/// up non-empty after parsing.
pub open spec fn mirror_has_credentials(t: Seq<char>) -> bool {
    &&& env_update(spec_parse_env(t), "SP_TENANT_ID"@, Seq::<char>::empty()).len() > 0
    &&& env_update(spec_parse_env(t), "SP_CLIENT_ID"@, Seq::<char>::empty()).len() > 0
    &&& env_update(spec_parse_env(t), "SP_CLIENT_SECRET"@, Seq::<char>::empty()).len() > 0
}

impl ConfigManager {
    /// Resolves the store's paths under the platform's per-user
    /// application data directory.
    pub fn new(base_dir: &str) -> (r: ConfigManager)
        ensures
            r.config_dir@ == base_dir@ + "/Blocon"@,
            r.config_file@ == base_dir@ + "/Blocon"@ + "/config.dat"@,
            r.env_file@ == base_dir@ + "/Blocon"@ + "/.env"@,
    {
        let mut config_dir = String::from_str(base_dir);
        config_dir.append("/Blocon");
        let mut config_file = config_dir.clone();
        config_file.append("/config.dat");
        let mut env_file = config_dir.clone();
        env_file.append("/.env");
        ConfigManager { config_dir, config_file, env_file }
    }

    /// A configuration exists when either persisted form does (a
    /// mirror found only in the working directory does not count).
    pub fn has_config(&self, sources: &ConfigSources) -> (r: bool)
        ensures
            r == (sources.blob is Some || sources.mirror is Some),
    {
        match sources.blob {
            Option::Some(_) => true,
            Option::None => match sources.mirror {
                Option::Some(_) => true,
                Option::None => false,
            },
        }
    }

    /// The mirror file path handed to the backend process.
    pub fn get_env_path(&self) -> (r: String)
        ensures
            r@ == self.env_file@,
    {
        self.env_file.clone()
    }

    /// Validates the entity and produces both persisted forms.  An
    /// entity with an empty tenant id, client id or client secret is
    /// rejected with `MissingCredentials`; every other entity is
    /// accepted and serialized deterministically.
    pub fn save_config(&self, config: &SharePointConfig) -> (r: Result<SaveBundle, ConfigError>)
        ensures
            config.required_present() ==> (r matches Ok(b) && b.blob@ == blob_of(*config)
                && b.mirror@ == mirror_text(*config)),
            !config.required_present() ==> r == Result::<SaveBundle, ConfigError>::Err(
                ConfigError::MissingCredentials,
            ),
    {
        match crate::config::validate_required(config) {
            Ok(u) => u,
            Err(e) => {
                return Err(e);
            },
        };
        let payload = encode(config);
        let sealed = match seal(payload.as_str()) {
            Ok(s) => s,
            Err(e) => {
                return Err(e);
            },
        };
        let mirror = config.to_env_format();
        Ok(SaveBundle { blob: sealed, mirror })
    }

    /// Loads the entity, blob first, mirror as fallback.
    ///
    /// A recoverable blob wins and is trusted without validation.  A
    /// missing or corrupted blob falls through transparently — the
    /// caller observes no error — to the mirror path, then to a
    /// mirror in the working directory; the first text found is
    /// parsed and validated.  `NotFound` is returned only when no
    /// source exists at all.
    pub fn load_config(&self, sources: &ConfigSources) -> (r: Result<
        SharePointConfig,
        ConfigError,
    >)
        ensures
            blob_ok(*sources) ==> (match sources.blob {
                Option::Some(b) => r matches Ok(c0) && c0.wf() && b@ == blob_of(c0),
                Option::None => false,
            }),
            !blob_ok(*sources) ==> (fallback_text(*sources) matches Option::Some(t) ==> (
            if mirror_has_credentials(t) {
                r matches Ok(c0) && c0.wf() && env_applied(c0, spec_parse_env(t))
            } else {
                r == Result::<SharePointConfig, ConfigError>::Err(ConfigError::MissingCredentials)
            })),
            !blob_ok(*sources) ==> (fallback_text(*sources) is None ==> r == Result::<
                SharePointConfig,
                ConfigError,
            >::Err(ConfigError::NotFound)),
    {
        match &sources.blob {
            Option::Some(b) => {
                let payload = match unseal(b.as_str()) {
                    Ok(p) => p,
                    Err(e) => {
                        return Err(e);
                    },
                };
                match decode(payload.as_str()) {
                    Ok(c) => {
                        return Ok(c);
                    },
                    Err(_) => {
                        // corrupted blob: fall through to the mirror
                        proof {
                            assert(!blob_recoverable(b@)) by {
                                if blob_recoverable(b@) {
                                    let c = choose|c: SharePointConfig|
                                        c.wf() && b@ == blob_of(c);
                                    assert(c.wf() && payload@ == blob_of(c));
                                }
                            }
                        }
                    },
                }
            },
            Option::None => {},
        }
        match &sources.mirror {
            Option::Some(m) => {
                return load_mirror_text(m.as_str());
            },
            Option::None => {},
        }
        match &sources.cwd_mirror {
            Option::Some(m) => {
                return load_mirror_text(m.as_str());
            },
            Option::None => {},
        }
        Err(ConfigError::NotFound)
    }
}

/// Parses one mirror text and validates the required credentials.
fn load_mirror_text(t: &str) -> (r: Result<SharePointConfig, ConfigError>)
    ensures
        mirror_has_credentials(t@) ==> (r matches Ok(c0) && c0.wf() && env_applied(
            c0,
            spec_parse_env(t@),
        ) && c0.required_present()),
        !mirror_has_credentials(t@) ==> r == Result::<SharePointConfig, ConfigError>::Err(
            ConfigError::MissingCredentials,
        ),
{
    let c = config_from_mirror_text(t);
    match crate::config::validate_required(&c) {
        Ok(_) => Ok(c),
        Err(e) => Err(e),
    }
}

} // verus!
