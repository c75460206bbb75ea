//! The registry's operations, each on the store it is handed.

use crate::host::{
    blob_map_copy, blob_map_get, blob_map_new, blob_map_set, count_entries, count_map_new,
    count_map_set, flag_entries, flag_map_new, flag_map_set, text_entries, text_map_copy,
    text_map_get, text_map_new, text_map_set,
};
use crate::identity::{copy_bytes, Identity};
use crate::model;
use crate::store::{BytesMap, Permission, StorageKey, StorageValue, Store, StringMap};
use vstd::prelude::*;

verus! {

/// The caller of an operation that only the administrator may perform is not
/// the administrator. Nothing was changed.
#[derive(Clone, Copy, Debug, PartialEq, Eq)]
pub struct AuthorizationError;

/// The registry: tokens, their public and encrypted data, the permissions on
/// them and the count of reads. It keeps no state of its own; every operation
/// works on the store that it is handed.
///
/// An operation that only the administrator may perform takes the identity of
/// its caller and compares it with the administrator kept in the store. That
/// the caller controls this identity is for whoever calls the registry to
/// establish beforehand.
///
/// Names, descriptions, keys and values are byte strings; the registry never
/// looks into them. An operation that may have to make a map of the host
/// takes the host's environment.
pub struct NFTDataSharing;

impl NFTDataSharing {
    /// The number kept under `key`; zero where there is none.
    fn count_at(store: &Store, key: &StorageKey) -> (n: u32)
        ensures
            n == model::count_at(store@, key@),
    {
        match store.get(key) {
            Some(StorageValue::Count(n)) => *n,
            _ => 0,
        }
    }

    /// The flag kept for `permission` of `who` on `token_id`; false where there is none.
    fn flag_at(store: &Store, permission: Permission, who: Identity, token_id: u32) -> (flag: bool)
        ensures
            flag == model::has_access(store@, permission, who@, token_id),
    {
        match store.get(&StorageKey::AccessGrant(permission, who, token_id)) {
            Some(StorageValue::Flag(flag)) => *flag,
            _ => false,
        }
    }

    /// The ciphertext kept for `key` of `token_id`; no bytes where there is none.
    fn encrypted_value(store: &Store, token_id: u32, key: &Vec<u8>) -> (bytes: Vec<u8>)
        ensures
            bytes@ == model::encrypted_value(store@, token_id, key@),
    {
        match store.get(&StorageKey::EncryptedData(token_id)) {
            Some(StorageValue::EncryptedData(data)) => match blob_map_get(data, key) {
                Some(bytes) => bytes,
                None => Vec::new(),
            },
            _ => Vec::new(),
        }
    }

    /// Passes where `caller` is the administrator.
    fn require_admin(store: &Store, caller: &Identity) -> (outcome: Result<(), AuthorizationError>)
        ensures
            outcome.is_ok() == model::is_admin(store@, caller@),
    {
        match store.get(&StorageKey::Admin) {
            Some(StorageValue::Identity(admin)) => if admin.same(caller) {
                Ok(())
            } else {
                Err(AuthorizationError)
            },
            _ => Err(AuthorizationError),
        }
    }

    /// Counts one more read of the data of `token_id`.
    fn increment_access_count(store: &mut Store, token_id: u32)
        requires
            model::access_count(old(store)@, token_id) < u32::MAX,
        ensures
            final(store)@ == model::with_access_counted(old(store)@, token_id),
    {
        let count = Self::count_at(store, &StorageKey::AccessCount(token_id));
        store.set(StorageKey::AccessCount(token_id), StorageValue::Count(count + 1));
    }

    /// Writes the flag of `permission` for `system` on `token_id`, where
    /// `caller` is the administrator.
    fn set_access(store: &mut Store, caller: &Identity, permission: Permission, system: Identity, token_id: u32, flag: bool) -> (outcome: Result<(), AuthorizationError>)
        ensures
            outcome.is_ok() == model::is_admin(old(store)@, caller@),
            final(store)@ == if outcome.is_ok() {
                model::with_access(old(store)@, permission, system@, token_id, flag)
            } else {
                old(store)@
            },
    {
        if Self::require_admin(store, caller).is_err() {
            return Err(AuthorizationError);
        }
        store.set(StorageKey::AccessGrant(permission, system, token_id), StorageValue::Flag(flag));
        Ok(())
    }

    /// Makes `admin` the administrator, in place of an earlier one.
    pub fn initialize(store: &mut Store, admin: Identity)
        ensures
            final(store)@ == model::initialized(old(store)@, admin@),
    {
        store.set(StorageKey::Admin, StorageValue::Identity(admin));
    }

    /// Creates a token with `name` and `description` and returns its
    /// identifier: the number of tokens created before it. Only the
    /// administrator may do so.
    pub fn create_nft(store: &mut Store, caller: &Identity, name: Vec<u8>, description: Vec<u8>) -> (outcome: Result<u32, AuthorizationError>)
        requires
            model::is_admin(old(store)@, caller@) ==> model::total_nfts(old(store)@) < u32::MAX,
        ensures
            outcome.is_ok() == model::is_admin(old(store)@, caller@),
            match outcome {
                Ok(token_id) => token_id == model::total_nfts(old(store)@) && final(store)@
                    == model::with_nft(old(store)@, name@, description@),
                Err(_) => final(store)@ == old(store)@,
            },
    {
        if Self::require_admin(store, caller).is_err() {
            return Err(AuthorizationError);
        }
        let token_id = Self::count_at(store, &StorageKey::TokenCounter);
        store.set(StorageKey::TokenCounter, StorageValue::Count(token_id + 1));
        store.set(StorageKey::TokenRecord(token_id), StorageValue::Record(name, description));
        Ok(token_id)
    }

    /// The number of tokens created so far.
    pub fn get_total_nfts(store: &Store) -> (total: u32)
        ensures
            total == model::total_nfts(store@),
    {
        Self::count_at(store, &StorageKey::TokenCounter)
    }

    /// Name and description of `token_id`, in this order, or an empty vector
    /// where the token was never created.
    pub fn get_nft_info(store: &Store, token_id: u32) -> (info: Vec<Vec<u8>>)
        ensures
            info@.map_values(|text: Vec<u8>| text@) == model::nft_info(store@, token_id),
    {
        let mut info: Vec<Vec<u8>> = Vec::new();
        match store.get(&StorageKey::TokenRecord(token_id)) {
            Some(StorageValue::Record(name, description)) => {
                info.push(copy_bytes(name.as_slice()));
                info.push(copy_bytes(description.as_slice()));
            },
            _ => {},
        }
        assert(info@.map_values(|text: Vec<u8>| text@) =~= model::nft_info(store@, token_id));
        info
    }

    /// Stores `value` under `key` in the public data of `token_id`, in place
    /// of an earlier value. Only the administrator may do so. The token need
    /// not exist.
    pub fn add_public_data(env: &soroban_sdk::Env, store: &mut Store, caller: &Identity, token_id: u32, key: Vec<u8>, value: Vec<u8>) -> (outcome: Result<(), AuthorizationError>)
        ensures
            outcome.is_ok() == model::is_admin(old(store)@, caller@),
            final(store)@ == if outcome.is_ok() {
                model::with_public_data(old(store)@, token_id, key@, value@)
            } else {
                old(store)@
            },
    {
        if Self::require_admin(store, caller).is_err() {
            return Err(AuthorizationError);
        }
        let mut data: StringMap = match store.get(&StorageKey::PublicData(token_id)) {
            Some(StorageValue::PublicData(data)) => text_map_copy(data),
            _ => text_map_new(env),
        };
        text_map_set(&mut data, &key, &value);
        store.set(StorageKey::PublicData(token_id), StorageValue::PublicData(data));
        Ok(())
    }

    /// Stores `encrypted_value` under `key` in the encrypted data of
    /// `token_id`, in place of an earlier value. The bytes are kept as they
    /// are. Only the administrator may do so. The token need not exist.
    pub fn add_encrypted_data(env: &soroban_sdk::Env, store: &mut Store, caller: &Identity, token_id: u32, key: Vec<u8>, encrypted_value: Vec<u8>) -> (outcome: Result<(), AuthorizationError>)
        ensures
            outcome.is_ok() == model::is_admin(old(store)@, caller@),
            final(store)@ == if outcome.is_ok() {
                model::with_encrypted_data(old(store)@, token_id, key@, encrypted_value@)
            } else {
                old(store)@
            },
    {
        if Self::require_admin(store, caller).is_err() {
            return Err(AuthorizationError);
        }
        let mut data: BytesMap = match store.get(&StorageKey::EncryptedData(token_id)) {
            Some(StorageValue::EncryptedData(data)) => blob_map_copy(data),
            _ => blob_map_new(env),
        };
        blob_map_set(&mut data, &key, &encrypted_value);
        store.set(StorageKey::EncryptedData(token_id), StorageValue::EncryptedData(data));
        Ok(())
    }

    /// The public value kept for `key` of `token_id`, or the bytes of
    /// "No data found" where there is none. Anyone may read; every read is counted.
    pub fn read_public_data(store: &mut Store, token_id: u32, key: Vec<u8>) -> (value: Vec<u8>)
        requires
            model::access_count(old(store)@, token_id) < u32::MAX,
        ensures
            value@ == model::public_value(old(store)@, token_id, key@),
            final(store)@ == model::with_access_counted(old(store)@, token_id),
    {
        let found = match store.get(&StorageKey::PublicData(token_id)) {
            Some(StorageValue::PublicData(data)) => text_map_get(data, &key),
            _ => None,
        };
        let value = match found {
            Some(value) => value,
            None => copy_bytes("No data found".as_bytes()),
        };
        Self::increment_access_count(store, token_id);
        value
    }

    /// All public data of `token_id`; a map without entries where none was added.
    pub fn get_all_public_data(env: &soroban_sdk::Env, store: &Store, token_id: u32) -> (data: StringMap)
        ensures
            text_entries(data) == model::public_data(store@, token_id),
    {
        match store.get(&StorageKey::PublicData(token_id)) {
            Some(StorageValue::PublicData(data)) => text_map_copy(data),
            _ => text_map_new(env),
        }
    }

    /// Whether public data was ever added to `token_id`.
    pub fn has_public_data(store: &Store, token_id: u32) -> (present: bool)
        ensures
            present == model::has_public_data(store@, token_id),
    {
        store.has(&StorageKey::PublicData(token_id))
    }

    /// Whether encrypted data was ever added to `token_id`.
    pub fn has_encrypted_data(store: &Store, token_id: u32) -> (present: bool)
        ensures
            present == model::has_encrypted_data(store@, token_id),
    {
        store.has(&StorageKey::EncryptedData(token_id))
    }

    /// Lets `system` read the encrypted data of `token_id`. Only the
    /// administrator may do so.
    pub fn grant_read_access(store: &mut Store, caller: &Identity, system: Identity, token_id: u32) -> (outcome: Result<(), AuthorizationError>)
        ensures
            outcome.is_ok() == model::is_admin(old(store)@, caller@),
            final(store)@ == if outcome.is_ok() {
                model::with_access(old(store)@, Permission::Read, system@, token_id, true)
            } else {
                old(store)@
            },
    {
        Self::set_access(store, caller, Permission::Read, system, token_id, true)
    }

    /// Gives `system` the write permission on `token_id`. Only the
    /// administrator may do so.
    pub fn grant_write_access(store: &mut Store, caller: &Identity, system: Identity, token_id: u32) -> (outcome: Result<(), AuthorizationError>)
        ensures
            outcome.is_ok() == model::is_admin(old(store)@, caller@),
            final(store)@ == if outcome.is_ok() {
                model::with_access(old(store)@, Permission::Write, system@, token_id, true)
            } else {
                old(store)@
            },
    {
        Self::set_access(store, caller, Permission::Write, system, token_id, true)
    }

    /// Takes the read permission on `token_id` from `system`: the flag is
    /// kept, set to false. Only the administrator may do so.
    pub fn revoke_read_access(store: &mut Store, caller: &Identity, system: Identity, token_id: u32) -> (outcome: Result<(), AuthorizationError>)
        ensures
            outcome.is_ok() == model::is_admin(old(store)@, caller@),
            final(store)@ == if outcome.is_ok() {
                model::with_access(old(store)@, Permission::Read, system@, token_id, false)
            } else {
                old(store)@
            },
    {
        Self::set_access(store, caller, Permission::Read, system, token_id, false)
    }

    /// Takes the write permission on `token_id` from `system`: the flag is
    /// kept, set to false. Only the administrator may do so.
    pub fn revoke_write_access(store: &mut Store, caller: &Identity, system: Identity, token_id: u32) -> (outcome: Result<(), AuthorizationError>)
        ensures
            outcome.is_ok() == model::is_admin(old(store)@, caller@),
            final(store)@ == if outcome.is_ok() {
                model::with_access(old(store)@, Permission::Write, system@, token_id, false)
            } else {
                old(store)@
            },
    {
        Self::set_access(store, caller, Permission::Write, system, token_id, false)
    }

    /// Whether `system` may read the encrypted data of `token_id`.
    pub fn has_read_access(store: &Store, system: Identity, token_id: u32) -> (granted: bool)
        ensures
            granted == model::has_access(store@, Permission::Read, system@, token_id),
    {
        Self::flag_at(store, Permission::Read, system, token_id)
    }

    /// Whether `system` holds the write permission on `token_id`.
    pub fn has_write_access(store: &Store, system: Identity, token_id: u32) -> (granted: bool)
        ensures
            granted == model::has_access(store@, Permission::Write, system@, token_id),
    {
        Self::flag_at(store, Permission::Write, system, token_id)
    }

    /// Hands `requester` the ciphertext kept for `key` of `token_id` where
    /// `requester` holds the read permission on the token. Any other
    /// requester gets no bytes, whether or not the key has a value. The read
    /// is counted either way.
    pub fn read_encrypted_data(store: &mut Store, token_id: u32, key: Vec<u8>, requester: Identity) -> (bytes: Vec<u8>)
        requires
            model::access_count(old(store)@, token_id) < u32::MAX,
        ensures
            bytes@ == model::disclosed_value(old(store)@, token_id, key@, requester@),
            final(store)@ == model::with_access_counted(old(store)@, token_id),
    {
        let bytes = if Self::flag_at(store, Permission::Read, requester, token_id) {
            Self::encrypted_value(store, token_id, &key)
        } else {
            Vec::new()
        };
        Self::increment_access_count(store, token_id);
        bytes
    }

    /// The ciphertext kept for `key` of `token_id`, or no bytes where there
    /// is none. Anyone may ask, with or without a permission; every read is counted.
    pub fn get_encrypted_data(store: &mut Store, token_id: u32, key: Vec<u8>) -> (bytes: Vec<u8>)
        requires
            model::access_count(old(store)@, token_id) < u32::MAX,
        ensures
            bytes@ == model::encrypted_value(old(store)@, token_id, key@),
            final(store)@ == model::with_access_counted(old(store)@, token_id),
    {
        let bytes = Self::encrypted_value(store, token_id, &key);
        Self::increment_access_count(store, token_id);
        bytes
    }

    /// How often the data of `token_id` was read; zero where it never was.
    pub fn get_data_sharing_count(store: &Store, token_id: u32) -> (count: u32)
        ensures
            count == model::access_count(store@, token_id),
    {
        Self::count_at(store, &StorageKey::AccessCount(token_id))
    }

    /// The sum of the access counts of the tokens created so far, or nothing
    /// where that sum is more than a `u32` holds.
    pub fn checked_total_accesses(store: &Store) -> (total: Option<u32>)
        ensures
            total.is_some() == (model::total_accesses(store@) <= u32::MAX),
            total.is_some() ==> total.unwrap() == model::total_accesses(store@),
    {
        let nft_count = Self::count_at(store, &StorageKey::TokenCounter);
        let mut total: u32 = 0;
        let mut i: u32 = 0;
        while i < nft_count
            invariant
                i <= nft_count,
                nft_count == model::total_nfts(store@),
                total == model::accesses_below(store@, i as nat),
            decreases nft_count - i,
        {
            let count = Self::count_at(store, &StorageKey::AccessCount(i));
            proof {
                model::lemma_accesses_grow(store@, (i + 1) as nat, nft_count as nat);
            }
            if count > u32::MAX - total {
                return None;
            }
            total = total + count;
            i = i + 1;
        }
        Some(total)
    }

    /// The sum of the access counts of the tokens created so far. Its cost
    /// grows with the number of tokens.
    pub fn get_total_accesses(store: &Store) -> (total: u32)
        requires
            model::total_accesses(store@) <= u32::MAX,
        ensures
            total == model::total_accesses(store@),
    {
        Self::checked_total_accesses(store).unwrap()
    }

    /// The access count of `token_id` under "total_accesses", and
    /// `token_id` itself under "nft_id".
    pub fn get_access_stats(env: &soroban_sdk::Env, store: &Store, token_id: u32) -> (stats: soroban_sdk::Map<soroban_sdk::String, u32>)
        ensures
            count_entries(stats) == model::access_stats(store@, token_id),
    {
        let mut stats = count_map_new(env);
        let access_count = Self::count_at(store, &StorageKey::AccessCount(token_id));
        count_map_set(&mut stats, "total_accesses", access_count);
        count_map_set(&mut stats, "nft_id", token_id);
        stats
    }

    /// The number of tokens under "total_nfts", and the sum of their access
    /// counts under "total_accesses".
    pub fn get_system_stats(env: &soroban_sdk::Env, store: &Store) -> (stats: soroban_sdk::Map<soroban_sdk::String, u32>)
        requires
            model::total_accesses(store@) <= u32::MAX,
        ensures
            count_entries(stats) == model::system_stats(store@),
    {
        let mut stats = count_map_new(env);
        let total_nfts = Self::count_at(store, &StorageKey::TokenCounter);
        let total_accesses = Self::get_total_accesses(store);
        count_map_set(&mut stats, "total_nfts", total_nfts);
        count_map_set(&mut stats, "total_accesses", total_accesses);
        stats
    }

    /// Probes whether `token_id` has a record, public data and encrypted
    /// data. The three answers are independent of each other.
    pub fn verify_data_integrity(env: &soroban_sdk::Env, store: &Store, token_id: u32) -> (report: soroban_sdk::Map<soroban_sdk::String, bool>)
        ensures
            flag_entries(report) == model::integrity_report(store@, token_id),
    {
        let mut report = flag_map_new(env);
        let nft_exists = store.has(&StorageKey::TokenRecord(token_id));
        flag_map_set(&mut report, "nft_exists", nft_exists);
        let public_data_exists = store.has(&StorageKey::PublicData(token_id));
        flag_map_set(&mut report, "public_data_exists", public_data_exists);
        let encrypted_data_exists = store.has(&StorageKey::EncryptedData(token_id));
        flag_map_set(&mut report, "encrypted_data_exists", encrypted_data_exists);
        report
    }
}

} // verus!
