//! The configuration loader.
//!
//! Startup names the secrets it requires; the loader retrieves each of them
//! from the store. A missing secret is fatal: the loader stops at the first
//! absent name and reports exactly which key was missing, so that no handler
//! is built from an incomplete configuration.

use vstd::prelude::*;

use crate::secrets::SecretStore;

verus! {

/// A fatal startup error: a required secret was absent from the store.
#[derive(Debug, Clone, PartialEq, Eq)]
pub enum ConfigError {
    MissingSecret(String),
}

impl ConfigError {
    /// The name of the secret whose absence raised this error.
    pub open spec fn spec_key(&self) -> Seq<char> {
        match self {
            ConfigError::MissingSecret(name) => name@,
        }
    }

    /// The name of the secret whose absence raised this error.
    pub fn missing_key(&self) -> (key: &String)
        ensures
            key@ == self.spec_key(),
    {
        match self {
            ConfigError::MissingSecret(name) => name,
        }
    }
}

/// Retrieves one required secret: its value when it is set, and the fatal
/// [`ConfigError`] naming it when it is not.
pub fn get_required(store: &SecretStore, name: &str) -> (r: Result<String, ConfigError>)
    ensures
        store@.contains_key(name@) <==> r is Ok,
        r matches Ok(value) ==> value@ == store@[name@],
        r matches Err(e) ==> e.spec_key() == name@,
{
    match store.get(name) {
        Some(value) => Ok(value),
        None => Err(ConfigError::MissingSecret(name.to_owned())),
    }
}

/// Retrieves every secret of a list of required names, in order.
///
/// Succeeds exactly when all names are set, and then returns their values in
/// the order the names were given. Otherwise it fails on the first absent
/// name, reports that key, and retrieves nothing further.
pub fn load_required(store: &SecretStore, names: &Vec<String>) -> (r: Result<
    Vec<String>,
    ConfigError,
>)
    ensures
        (forall|j: int| 0 <= j < names@.len() ==> store@.contains_key(#[trigger] names@[j]@))
            <==> r is Ok,
        r matches Ok(values) ==> values@.len() == names@.len() && (forall|j: int|
            0 <= j < names@.len() ==> #[trigger] values@[j]@ == store@[names@[j]@]),
        r matches Err(e) ==> exists|j: int|
            0 <= j < names@.len() && !store@.contains_key(#[trigger] names@[j]@) && e.spec_key()
                == names@[j]@ && (forall|k: int|
                0 <= k < j ==> store@.contains_key(#[trigger] names@[k]@)),
{
    let mut values: Vec<String> = Vec::new();
    let mut i: usize = 0;
    while i < names.len()
        invariant
            i <= names@.len(),
            values@.len() == i,
            forall|j: int| 0 <= j < i ==> store@.contains_key(#[trigger] names@[j]@),
            forall|j: int| 0 <= j < i ==> #[trigger] values@[j]@ == store@[names@[j]@],
        decreases names@.len() - i,
    {
        match get_required(store, names[i].as_str()) {
            Ok(value) => {
                values.push(value);
            },
            Err(e) => {
                return Err(e);
            },
        }
        i = i + 1;
    }
    Ok(values)
}

} // verus!
