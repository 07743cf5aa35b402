use vstd::prelude::*;
use crate::error::OptimizeError;
use crate::settings::ProviderMode;
use crate::text::{blank, is_blank, trim_owned, trimmed};

verus! {

/// Whether a looked-up value holds a credential: present and not blank.
pub open spec fn usable(value: Option<String>) -> bool {
    value is Some && !is_blank(value->Some_0@)
}

/// The credential for a mode, from the secure store's value and the
/// environment variable's value. The environment is the only source in "env"
/// mode; otherwise the secure store comes first and the environment serves as
/// a fallback in development builds only.
pub open spec fn resolved_key(
    mode: ProviderMode,
    secure_value: Option<String>,
    env_value: Option<String>,
    dev_build: bool,
) -> Option<Seq<char>> {
    match mode {
        ProviderMode::Env => if usable(env_value) {
            Some(trimmed(env_value->Some_0@))
        } else {
            None
        },
        _ => if usable(secure_value) {
            Some(trimmed(secure_value->Some_0@))
        } else if dev_build && usable(env_value) {
            Some(trimmed(env_value->Some_0@))
        } else {
            None
        },
    }
}

fn usable_value(value: &Option<String>) -> (r: bool)
    ensures
        r == usable(*value),
{
    match value {
        Some(v) => !blank(v.as_str()),
        None => false,
    }
}

/// Resolves the credential for `mode`; `CredentialMissing` when no source
/// holds one.
pub fn get_api_key(
    mode: ProviderMode,
    secure_value: Option<String>,
    env_value: Option<String>,
    dev_build: bool,
) -> (r: Result<String, OptimizeError>)
    ensures
        resolved_key(mode, secure_value, env_value, dev_build) is Some ==> r is Ok
            && r->Ok_0@ == resolved_key(mode, secure_value, env_value, dev_build)->Some_0,
        resolved_key(mode, secure_value, env_value, dev_build) is None ==> r == Err::<
            String,
            OptimizeError,
        >(OptimizeError::CredentialMissing),
{
    let env_ok = usable_value(&env_value);
    match mode {
        ProviderMode::Env => {
            if env_ok {
                let v = env_value.unwrap();
                return Ok(trim_owned(v.as_str()));
            }
        },
        _ => {
            if usable_value(&secure_value) {
                let v = secure_value.unwrap();
                return Ok(trim_owned(v.as_str()));
            }
            if dev_build && env_ok {
                let v = env_value.unwrap();
                return Ok(trim_owned(v.as_str()));
            }
        },
    }
    Err(OptimizeError::CredentialMissing)
}

/// Whether a credential is available: from the secure store, or in
/// development builds from the environment.
pub fn has_api_key(secure_value: &Option<String>, env_value: &Option<String>, dev_build: bool) -> (r:
    bool)
    ensures
        r == (usable(*secure_value) || (dev_build && usable(*env_value))),
{
    if usable_value(secure_value) {
        return true;
    }
    dev_build && usable_value(env_value)
}

/// The value to store for a submitted credential: its trimmed text, or
/// `InvalidCredential` when it is blank.
pub fn set_api_key(api_key: &str) -> (r: Result<String, OptimizeError>)
    ensures
        is_blank(api_key@) ==> r == Err::<String, OptimizeError>(OptimizeError::InvalidCredential),
        !is_blank(api_key@) ==> r is Ok && r->Ok_0@ == trimmed(api_key@),
{
    let trimmed_key = trim_owned(api_key);
    if trimmed_key.as_str().is_empty() {
        return Err(OptimizeError::InvalidCredential);
    }
    Ok(trimmed_key)
}

} // verus!
