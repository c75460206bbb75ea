//! The host's maps, as the registry uses them.
//!
//! Data attached to a token is kept in maps of the Soroban host, and the
//! registry's reports are handed out in such maps. This module is the whole
//! of what the registry takes on trust about them: each function below makes
//! one map operation, and its contract states what that operation does to
//! the entries of the map. Keys and values cross this boundary as plain
//! bytes and numbers; the host strings and byte arrays that the maps hold
//! are made from them, and read back into them, here.
//!
//! None of these operations depends on anything but its arguments, except
//! that the host may end the program when the budget it grants a
//! transaction is used up, as an allocator may when memory is.

use vstd::prelude::*;
use vstd::string::StringSliceAdditionalSpecFns;

verus! {

#[verifier::external_type_specification]
#[verifier::external_body]
pub struct ExEnv(soroban_sdk::Env);

#[verifier::external_type_specification]
#[verifier::external_body]
pub struct ExString(soroban_sdk::String);

#[verifier::external_type_specification]
#[verifier::external_body]
pub struct ExBytes(soroban_sdk::Bytes);

#[verifier::external_type_specification]
#[verifier::external_body]
#[verifier::reject_recursive_types(K)]
#[verifier::reject_recursive_types(V)]
pub struct ExMap<K, V>(soroban_sdk::Map<K, V>);

/// The map without entries.
pub open spec fn no_entries<V>() -> Map<Seq<u8>, V> {
    Map::empty()
}

/// The entries of a map from strings to strings: the bytes of each key and
/// of the string kept under it.
pub uninterp spec fn text_entries(map: soroban_sdk::Map<soroban_sdk::String, soroban_sdk::String>) -> Map<Seq<u8>, Seq<u8>>;

/// The entries of a map from strings to byte arrays: the bytes of each key
/// and of the array kept under it.
pub uninterp spec fn blob_entries(map: soroban_sdk::Map<soroban_sdk::String, soroban_sdk::Bytes>) -> Map<Seq<u8>, Seq<u8>>;

/// The entries of a map from strings to numbers: the bytes of each key and
/// the number kept under it.
pub uninterp spec fn count_entries(map: soroban_sdk::Map<soroban_sdk::String, u32>) -> Map<Seq<u8>, u32>;

/// The entries of a map from strings to flags: the bytes of each key and the
/// flag kept under it.
pub uninterp spec fn flag_entries(map: soroban_sdk::Map<soroban_sdk::String, bool>) -> Map<Seq<u8>, bool>;

/// `Map::new` for strings: the map it makes has no entries.
#[verifier::external_body]
pub(crate) fn text_map_new(env: &soroban_sdk::Env) -> (made: soroban_sdk::Map<soroban_sdk::String, soroban_sdk::String>)
    ensures
        text_entries(made) == no_entries::<Seq<u8>>(),
{
    soroban_sdk::Map::new(env)
}

/// `Map::set` for strings, with key and value made by `String::from_bytes`:
/// the value is kept under the key, in place of what was kept there, and
/// every other entry stays.
#[verifier::external_body]
pub(crate) fn text_map_set(map: &mut soroban_sdk::Map<soroban_sdk::String, soroban_sdk::String>, key: &Vec<u8>, value: &Vec<u8>)
    ensures
        text_entries(*final(map)) == text_entries(*old(map)).insert(key@, value@),
{
    let key = soroban_sdk::String::from_bytes(map.env(), key);
    let value = soroban_sdk::String::from_bytes(map.env(), value);
    map.set(key, value);
}

/// `Map::try_get` for strings, with the key made by `String::from_bytes` and
/// the value read by `String::copy_into_slice`: the bytes kept under the key,
/// or nothing where the map has no string there.
#[verifier::external_body]
pub(crate) fn text_map_get(map: &soroban_sdk::Map<soroban_sdk::String, soroban_sdk::String>, key: &Vec<u8>) -> (found: Option<Vec<u8>>)
    ensures
        match found {
            Some(value) => text_entries(*map).contains_key(key@) && value@ == text_entries(*map)[key@],
            None => !text_entries(*map).contains_key(key@),
        },
{
    let key = soroban_sdk::String::from_bytes(map.env(), key);
    match map.try_get(key) {
        Ok(Some(value)) => {
            let mut bytes = vec![0u8; value.len() as usize];
            value.copy_into_slice(&mut bytes);
            Some(bytes)
        },
        _ => None,
    }
}

/// `Clone::clone` of a map of strings: the copy has the entries of the map.
#[verifier::external_body]
pub(crate) fn text_map_copy(map: &soroban_sdk::Map<soroban_sdk::String, soroban_sdk::String>) -> (copy: soroban_sdk::Map<soroban_sdk::String, soroban_sdk::String>)
    ensures
        text_entries(copy) == text_entries(*map),
{
    map.clone()
}

/// `Map::new` for byte arrays: the map it makes has no entries.
#[verifier::external_body]
pub(crate) fn blob_map_new(env: &soroban_sdk::Env) -> (made: soroban_sdk::Map<soroban_sdk::String, soroban_sdk::Bytes>)
    ensures
        blob_entries(made) == no_entries::<Seq<u8>>(),
{
    soroban_sdk::Map::new(env)
}

/// `Map::set` for byte arrays, with the key made by `String::from_bytes` and
/// the value by `Bytes::from_slice`: the value is kept under the key, in
/// place of what was kept there, and every other entry stays.
#[verifier::external_body]
pub(crate) fn blob_map_set(map: &mut soroban_sdk::Map<soroban_sdk::String, soroban_sdk::Bytes>, key: &Vec<u8>, value: &Vec<u8>)
    ensures
        blob_entries(*final(map)) == blob_entries(*old(map)).insert(key@, value@),
{
    let key = soroban_sdk::String::from_bytes(map.env(), key);
    let value = soroban_sdk::Bytes::from_slice(map.env(), value);
    map.set(key, value);
}

/// `Map::try_get` for byte arrays, with the key made by `String::from_bytes`
/// and the value read by `Bytes::copy_into_slice`: the bytes kept under the
/// key, or nothing where the map has no byte array there.
#[verifier::external_body]
pub(crate) fn blob_map_get(map: &soroban_sdk::Map<soroban_sdk::String, soroban_sdk::Bytes>, key: &Vec<u8>) -> (found: Option<Vec<u8>>)
    ensures
        match found {
            Some(value) => blob_entries(*map).contains_key(key@) && value@ == blob_entries(*map)[key@],
            None => !blob_entries(*map).contains_key(key@),
        },
{
    let key = soroban_sdk::String::from_bytes(map.env(), key);
    match map.try_get(key) {
        Ok(Some(value)) => {
            let mut bytes = vec![0u8; value.len() as usize];
            value.copy_into_slice(&mut bytes);
            Some(bytes)
        },
        _ => None,
    }
}

/// `Clone::clone` of a map of byte arrays: the copy has the entries of the map.
#[verifier::external_body]
pub(crate) fn blob_map_copy(map: &soroban_sdk::Map<soroban_sdk::String, soroban_sdk::Bytes>) -> (copy: soroban_sdk::Map<soroban_sdk::String, soroban_sdk::Bytes>)
    ensures
        blob_entries(copy) == blob_entries(*map),
{
    map.clone()
}

/// `Map::new` for numbers: the map it makes has no entries.
#[verifier::external_body]
pub(crate) fn count_map_new(env: &soroban_sdk::Env) -> (made: soroban_sdk::Map<soroban_sdk::String, u32>)
    ensures
        count_entries(made) == no_entries::<u32>(),
{
    soroban_sdk::Map::new(env)
}

/// `Map::set` for numbers, with the key made by `String::from_str`: the
/// number is kept under the bytes of the key, in place of what was kept
/// there, and every other entry stays.
#[verifier::external_body]
pub(crate) fn count_map_set(map: &mut soroban_sdk::Map<soroban_sdk::String, u32>, key: &str, value: u32)
    ensures
        count_entries(*final(map)) == count_entries(*old(map)).insert(key.spec_bytes(), value),
{
    let key = soroban_sdk::String::from_str(map.env(), key);
    map.set(key, value);
}

/// `Map::new` for flags: the map it makes has no entries.
#[verifier::external_body]
pub(crate) fn flag_map_new(env: &soroban_sdk::Env) -> (made: soroban_sdk::Map<soroban_sdk::String, bool>)
    ensures
        flag_entries(made) == no_entries::<bool>(),
{
    soroban_sdk::Map::new(env)
}

/// `Map::set` for flags, with the key made by `String::from_str`: the flag
/// is kept under the bytes of the key, in place of what was kept there, and
/// every other entry stays.
#[verifier::external_body]
pub(crate) fn flag_map_set(map: &mut soroban_sdk::Map<soroban_sdk::String, bool>, key: &str, value: bool)
    ensures
        flag_entries(*final(map)) == flag_entries(*old(map)).insert(key.spec_bytes(), value),
{
    let key = soroban_sdk::String::from_str(map.env(), key);
    map.set(key, value);
}

} // verus!
