use vstd::prelude::*;

use crate::errors::ConfigError;

verus! {

/// Protects a configuration payload at rest.
///
/// This build targets platforms without a user-scoped sealing
/// primitive, so the payload passes through unchanged — a deliberate
/// portability degradation, not a security guarantee.  A
/// platform-backed implementation would encrypt under the current
/// user's key material behind the same interface and report `Seal` on
/// primitive failure; the application shell is responsible for warning
/// the user when the pass-through is in effect.
pub fn seal(payload: &str) -> (r: Result<String, ConfigError>)
    ensures
        r matches Ok(sealed) && sealed@ == payload@,
{
    Ok(String::from_str(payload))
}

/// Inverse of `seal`, with the same pass-through behaviour.  A
/// platform-backed implementation would report `Unseal` on primitive
/// failure.
pub fn unseal(sealed: &str) -> (r: Result<String, ConfigError>)
    ensures
        r matches Ok(payload) && payload@ == sealed@,
{
    Ok(String::from_str(sealed))
}

} // verus!
