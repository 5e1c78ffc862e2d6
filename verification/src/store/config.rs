//! Settings that survive a restart.

use vstd::prelude::*;

use crate::text;

verus! {

/// Key of the models to use.
pub const MODEL_KEY: &'static str = "model";

/// Key of the provider's API key.
pub const PROVIDER_KEY: &'static str = "groq_api_key";

/// What a stored API key comes to.
pub open spec fn loads(value: Option<String>, r: Option<String>) -> bool {
    r == (match value {
        Some(v) => if v@.len() > 0 {
            Some(v)
        } else {
            None
        },
        None => None,
    })
}

/// The stored API key; an empty one counts as none.
pub fn load_provider_key(value: Option<String>) -> (r: Option<String>)
    ensures
        loads(value, r),
{
    match value {
        Some(v) => if v.as_str().is_empty() {
            None
        } else {
            Some(v)
        },
        None => None,
    }
}

/// What to do with the stored API key.
#[derive(Debug, PartialEq)]
pub enum KeyChange {
    Store(String),
    Delete,
}

/// What a new API key does to the stored one.
pub open spec fn saves(key: Option<String>, r: KeyChange) -> bool {
    match key {
        Some(k) => if k@.len() > 0 {
            r == KeyChange::Store(k)
        } else {
            r == KeyChange::Delete
        },
        None => r == KeyChange::Delete,
    }
}

/// What to do with the stored API key, given the new one: an empty one deletes
/// it.
pub fn save_provider_key(key: &Option<String>) -> (r: KeyChange)
    ensures
        saves(*key, r),
{
    match key {
        Some(k) => if k.as_str().is_empty() {
            KeyChange::Delete
        } else {
            KeyChange::Store(k.clone())
        },
        None => KeyChange::Delete,
    }
}

/// Whether this is the API key in force.
pub open spec fn applies(
    stored: Option<String>,
    from_env: Option<String>,
    r: Option<String>,
) -> bool {
    r == (if stored is Some {
        stored
    } else {
        from_env
    })
}

/// The API key in force: the stored one, else that of the environment.
pub fn effective_key(stored: Option<String>, from_env: &Option<String>) -> (r: Option<String>)
    ensures
        applies(stored, *from_env, r),
{
    match stored {
        Some(k) => Some(k),
        None => text::copy_option(from_env),
    }
}

/// Law: a key that is saved is the key that is loaded, and is in force whatever
/// the environment says; saving none, or an empty one, deletes it, and then the
/// environment's is in force.
pub proof fn law_saved_key_is_in_force(
    key: Option<String>,
    change: KeyChange,
    value: Option<String>,
    loaded: Option<String>,
    from_env: Option<String>,
    used: Option<String>,
)
    requires
        saves(key, change),
        value == (match change {
            KeyChange::Store(k) => Some(k),
            KeyChange::Delete => None,
        }),
        loads(value, loaded),
        applies(loaded, from_env, used),
    ensures
        key is Some && key->0@.len() > 0 ==> loaded == key && used == key,
        key is None || key->0@.len() == 0 ==> loaded is None && used == from_env,
{
}

} // verus!
