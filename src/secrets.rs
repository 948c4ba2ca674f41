//! Choosing the summarizer's API key among the credential store and the
//! environment.

use vstd::prelude::*;
use crate::text::{owned, string_of, trim, trimmed};

verus! {

/// Where the summarizer's API key was found.
#[derive(Debug, Clone, Copy, PartialEq, Eq, Structural)]
pub enum GeminiApiKeySource {
    OsKeychain,
    Environment,
    Missing,
}

impl GeminiApiKeySource {
    pub open spec fn spec_name(self) -> Seq<char> {
        match self {
            GeminiApiKeySource::OsKeychain => "os_keychain"@,
            GeminiApiKeySource::Environment => "environment"@,
            GeminiApiKeySource::Missing => "missing"@,
        }
    }

    pub fn as_str(&self) -> (r: &'static str)
        ensures
            r@ == self.spec_name(),
    {
        match self {
            GeminiApiKeySource::OsKeychain => "os_keychain",
            GeminiApiKeySource::Environment => "environment",
            GeminiApiKeySource::Missing => "missing",
        }
    }
}

/// A stored secret as it is used: trimmed, and absent when blank.
pub open spec fn usable_secret(raw: Option<Seq<char>>) -> Option<Seq<char>> {
    match raw {
        Some(s) if trimmed(s).len() > 0 => Some(trimmed(s)),
        _ => None,
    }
}

pub open spec fn view_opt(s: Option<String>) -> Option<Seq<char>> {
    match s {
        Some(t) => Some(t@),
        None => None,
    }
}

/// Trims a raw secret and drops it when blank.
pub fn clean_secret(raw: &Option<String>) -> (r: Option<String>)
    ensures
        view_opt(r) == usable_secret(view_opt(*raw)),
{
    match raw {
        Some(s) => {
            let t = trim(s.as_str());
            if t.len() == 0 {
                None
            } else {
                Some(string_of(&t))
            }
        },
        None => None,
    }
}

/// The key to use, from what the credential store gave (`Ok(None)` when it
/// holds no entry, `Err` when it could not be read) and from the environment
/// variable: the store is asked first, a blank value counts as absent, and a
/// store failure is reported.
pub fn resolve_gemini_api_key(keychain: &Result<Option<String>, String>, environment: &Option<
    String,
>) -> (r: Result<Option<String>, String>)
    ensures
        *keychain matches Err(e) ==> r == Err::<Option<String>, String>(e),
        *keychain matches Ok(k) ==> (r matches Ok(v) && view_opt(v) == if usable_secret(
            view_opt(k),
        ) is Some {
            usable_secret(view_opt(k))
        } else {
            usable_secret(view_opt(*environment))
        }),
{
    match keychain {
        Err(e) => Err(e.clone()),
        Ok(k) => {
            let from_store = clean_secret(k);
            if from_store.is_some() {
                Ok(from_store)
            } else {
                Ok(clean_secret(environment))
            }
        },
    }
}

/// Which source would supply the key, by the same order as
/// `resolve_gemini_api_key`.
pub fn get_gemini_api_key_source(keychain: &Result<Option<String>, String>, environment: &Option<
    String,
>) -> (r: Result<GeminiApiKeySource, String>)
    ensures
        *keychain matches Err(e) ==> r == Err::<GeminiApiKeySource, String>(e),
        *keychain matches Ok(k) ==> r == Ok::<GeminiApiKeySource, String>(
            if usable_secret(view_opt(k)) is Some {
                GeminiApiKeySource::OsKeychain
            } else if usable_secret(view_opt(*environment)) is Some {
                GeminiApiKeySource::Environment
            } else {
                GeminiApiKeySource::Missing
            },
        ),
{
    match keychain {
        Err(e) => Err(e.clone()),
        Ok(k) => {
            if clean_secret(k).is_some() {
                Ok(GeminiApiKeySource::OsKeychain)
            } else if clean_secret(environment).is_some() {
                Ok(GeminiApiKeySource::Environment)
            } else {
                Ok(GeminiApiKeySource::Missing)
            }
        },
    }
}

/// The value to store for a new key: trimmed, and refused when blank.
pub fn save_gemini_api_key(value: &str) -> (r: Result<String, String>)
    ensures
        r is Ok <==> trimmed(value@).len() > 0,
        r matches Ok(v) ==> v@ == trimmed(value@),
        r matches Err(m) ==> m@ == "Gemini API key cannot be empty"@,
{
    let t = trim(value);
    if t.len() == 0 {
        return Err(owned("Gemini API key cannot be empty"));
    }
    Ok(string_of(&t))
}

} // verus!
