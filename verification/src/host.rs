//! The values that live in the Soroban host and the calls that make and read
//! them. Nothing here is proved: each contract states what the host library
//! does, and the rest of the crate is verified against these statements.
//!
//! The host meters its own work and aborts an invocation whose budget is
//! spent; the contracts below speak of the calls that return.

use vstd::prelude::*;

verus! {

/// The handle to the host through which host values are made.
#[verifier::external_type_specification]
#[verifier::external_body]
pub struct ExEnv(soroban_sdk::Env);

/// The host's ordered dictionary.
#[verifier::external_type_specification]
#[verifier::external_body]
#[verifier::reject_recursive_types(K)]
#[verifier::reject_recursive_types(V)]
pub struct ExMap<K, V>(soroban_sdk::Map<K, V>);

/// The host's string.
#[verifier::external_type_specification]
#[verifier::external_body]
pub struct ExString(soroban_sdk::String);

/// The pairs of a number and an amount that a host dictionary holds. A pair
/// whose value the host cannot read as an amount is none of them.
pub uninterp spec fn entries_of(m: soroban_sdk::Map<u64, i128>) -> Map<u64, i128>;

/// The dictionary that holds no pair.
pub open spec fn no_entries() -> Map<u64, i128> {
    Map::empty()
}

/// The text that a host string holds.
pub uninterp spec fn text_of(s: soroban_sdk::String) -> Seq<char>;

/// `soroban_sdk::Map::new`: a dictionary made in the host, which holds no
/// pair.
#[verifier::external_body]
pub(crate) fn map_new(env: &soroban_sdk::Env) -> (created: soroban_sdk::Map<u64, i128>)
    ensures
        entries_of(created) == no_entries(),
{
    soroban_sdk::Map::new(env)
}

/// `soroban_sdk::Map::set`: the value under `key` becomes `value`, whether or
/// not the key was present; every other pair stays.
#[verifier::external_body]
pub(crate) fn map_set(m: &mut soroban_sdk::Map<u64, i128>, key: u64, value: i128)
    ensures
        entries_of(*final(m)) == entries_of(*old(m)).insert(key, value),
{
    m.set(key, value)
}

/// `soroban_sdk::Map::try_get`: the amount under `key`, or `None` where the
/// dictionary holds no amount under that key.
#[verifier::external_body]
pub(crate) fn map_get(m: &soroban_sdk::Map<u64, i128>, key: u64) -> (value: Option<i128>)
    ensures
        value == if entries_of(*m).contains_key(key) {
            Some(entries_of(*m)[key])
        } else {
            None::<i128>
        },
{
    match m.try_get(key) {
        Ok(value) => value,
        Err(_) => None,
    }
}

/// `soroban_sdk::String::from_str`: a host string that holds `text`.
#[verifier::external_body]
pub(crate) fn string_from_str(env: &soroban_sdk::Env, text: &str) -> (s: soroban_sdk::String)
    ensures
        text_of(s) == text@,
{
    soroban_sdk::String::from_str(env, text)
}

} // verus!
