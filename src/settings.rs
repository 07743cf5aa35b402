use vstd::prelude::*;
use crate::error::OptimizeError;

verus! {

/// User settings. The credential is kept in its own field so that it can be
/// preserved across updates; it is never handed back to a caller.
#[derive(Debug, Clone)]
pub struct AppSettings {
    /// Where the credential comes from: "env", "keychain" or "local".
    pub provider_mode: String,
    /// The stored credential, if any.
    pub api_key: Option<String>,
    /// Base URL of an OpenAI-compatible endpoint.
    pub api_base_url: Option<String>,
    pub model: Option<String>,
}

/// The source of the credential.
#[derive(Debug, Clone, Copy, PartialEq, Eq, Structural)]
pub enum ProviderMode {
    Env,
    Keychain,
    Local,
}

/// The mode that a stored settings record selects: an unset mode means
/// "local".
pub open spec fn mode_text(stored: Option<AppSettings>) -> Seq<char> {
    match stored {
        Some(s) => if s.provider_mode@.len() == 0 {
            "local"@
        } else {
            s.provider_mode@
        },
        None => "local"@,
    }
}

/// The base URL of a stored settings record.
pub open spec fn base_url_of(stored: Option<AppSettings>) -> Option<String> {
    match stored {
        Some(s) => s.api_base_url,
        None => None,
    }
}

/// The model of a stored settings record.
pub open spec fn model_of(stored: Option<AppSettings>) -> Option<String> {
    match stored {
        Some(s) => s.model,
        None => None,
    }
}

/// The credential of a stored settings record.
pub open spec fn key_of(stored: Option<AppSettings>) -> Option<String> {
    match stored {
        Some(s) => s.api_key,
        None => None,
    }
}

/// The settings as shown to a caller, from the stored record (`None` when it
/// is missing or unreadable): the mode defaults to "local", the credential is
/// left out.
pub fn get_settings(stored: Option<AppSettings>) -> (r: AppSettings)
    ensures
        r.provider_mode@ == mode_text(stored),
        r.api_key is None,
        r.api_base_url == base_url_of(stored),
        r.model == model_of(stored),
{
    match stored {
        Some(s) => {
            let provider_mode = if s.provider_mode.as_str().is_empty() {
                String::from_str("local")
            } else {
                s.provider_mode
            };
            AppSettings {
                provider_mode,
                api_key: None,
                api_base_url: s.api_base_url,
                model: s.model,
            }
        },
        None => AppSettings {
            provider_mode: String::from_str("local"),
            api_key: None,
            api_base_url: None,
            model: None,
        },
    }
}

/// The record to store for an update: the submitted mode, base URL and model,
/// with the credential kept from the existing record whatever was submitted.
pub fn set_settings(existing: Option<AppSettings>, settings: AppSettings) -> (r: AppSettings)
    ensures
        r.provider_mode == settings.provider_mode,
        r.api_base_url == settings.api_base_url,
        r.model == settings.model,
        r.api_key == key_of(existing),
{
    let api_key = match existing {
        Some(e) => e.api_key,
        None => None,
    };
    AppSettings {
        provider_mode: settings.provider_mode,
        api_key,
        api_base_url: settings.api_base_url,
        model: settings.model,
    }
}

/// The record that `set_settings` stores.
pub open spec fn saved_settings(existing: Option<AppSettings>, x: AppSettings) -> AppSettings {
    AppSettings {
        provider_mode: x.provider_mode,
        api_key: key_of(existing),
        api_base_url: x.api_base_url,
        model: x.model,
    }
}

/// Storing settings and reading them back yields the submitted mode, base URL
/// and model, and never a credential, whatever credential was submitted or
/// stored before.
pub proof fn lemma_settings_round_trip(existing: Option<AppSettings>, x: AppSettings)
    requires
        x.provider_mode@.len() > 0,
    ensures
        mode_text(Some(saved_settings(existing, x))) == x.provider_mode@,
        base_url_of(Some(saved_settings(existing, x))) == x.api_base_url,
        model_of(Some(saved_settings(existing, x))) == x.model,
{
}

/// The mode that a mode text names, if any.
pub open spec fn mode_named(text: Seq<char>) -> Option<ProviderMode> {
    if text == "env"@ {
        Some(ProviderMode::Env)
    } else if text == "keychain"@ {
        Some(ProviderMode::Keychain)
    } else if text == "local"@ || text.len() == 0 {
        Some(ProviderMode::Local)
    } else {
        None
    }
}

/// Reads a mode text; an empty one means "local".
pub fn parse_provider_mode(text: &str) -> (r: Result<ProviderMode, OptimizeError>)
    ensures
        mode_named(text@) is Some ==> r == Ok::<ProviderMode, OptimizeError>(
            mode_named(text@)->Some_0,
        ),
        mode_named(text@) is None ==> r is Err && r->Err_0 is UnknownProviderMode
            && r->Err_0->UnknownProviderMode_0@ == text@,
{
    let t = String::from_str(text);
    if t == String::from_str("env") {
        Ok(ProviderMode::Env)
    } else if t == String::from_str("keychain") {
        Ok(ProviderMode::Keychain)
    } else if t == String::from_str("local") || text.is_empty() {
        Ok(ProviderMode::Local)
    } else {
        Err(OptimizeError::UnknownProviderMode(t))
    }
}

} // verus!
