//! What the entries of the store mean, and how each operation changes them.
//!
//! Every function here is a specification: it reads a `Ledger`, the store
//! seen as a mathematical map, or says which ledger an operation leaves.
//! The store does not tie the kind of a value to its key; a value of another
//! kind than its key calls for reads as if there were none.

use crate::store::{Ledger, Permission, StorageKeyView, StorageValueView};
use vstd::prelude::*;
use vstd::string::StringSliceAdditionalSpecFns;

verus! {

/// The administrator, once one was set.
pub open spec fn admin(s: Ledger) -> Option<Seq<u8>> {
    if s.contains_key(StorageKeyView::Admin) {
        match s[StorageKeyView::Admin] {
            StorageValueView::Identity(who) => Some(who),
            _ => None,
        }
    } else {
        None
    }
}

/// Whether `caller` is the administrator. Nobody is before one was set.
pub open spec fn is_admin(s: Ledger, caller: Seq<u8>) -> bool {
    admin(s) == Some(caller)
}

/// The number kept under `key`; zero where there is none.
pub open spec fn count_at(s: Ledger, key: StorageKeyView) -> u32 {
    if s.contains_key(key) {
        match s[key] {
            StorageValueView::Count(n) => n,
            _ => 0,
        }
    } else {
        0
    }
}

/// The number of tokens created so far, which is the next identifier to assign.
pub open spec fn total_nfts(s: Ledger) -> u32 {
    count_at(s, StorageKeyView::TokenCounter)
}

/// Whether a record is kept for `token_id`.
pub open spec fn nft_exists(s: Ledger, token_id: u32) -> bool {
    s.contains_key(StorageKeyView::TokenRecord(token_id))
}

/// Name and description of `token_id`: two texts, or none where the token has no record.
pub open spec fn nft_info(s: Ledger, token_id: u32) -> Seq<Seq<u8>> {
    let key = StorageKeyView::TokenRecord(token_id);
    if s.contains_key(key) {
        match s[key] {
            StorageValueView::Record(name, description) => seq![name, description],
            _ => Seq::empty(),
        }
    } else {
        Seq::empty()
    }
}

/// The public data of `token_id`; empty where none was ever added.
pub open spec fn public_data(s: Ledger, token_id: u32) -> Map<Seq<u8>, Seq<u8>> {
    let key = StorageKeyView::PublicData(token_id);
    if s.contains_key(key) {
        match s[key] {
            StorageValueView::PublicData(data) => data,
            _ => Map::empty(),
        }
    } else {
        Map::empty()
    }
}

/// The encrypted data of `token_id`; empty where none was ever added.
pub open spec fn encrypted_data(s: Ledger, token_id: u32) -> Map<Seq<u8>, Seq<u8>> {
    let key = StorageKeyView::EncryptedData(token_id);
    if s.contains_key(key) {
        match s[key] {
            StorageValueView::EncryptedData(data) => data,
            _ => Map::empty(),
        }
    } else {
        Map::empty()
    }
}

/// How often the data of `token_id` was read.
pub open spec fn access_count(s: Ledger, token_id: u32) -> u32 {
    count_at(s, StorageKeyView::AccessCount(token_id))
}

/// Whether `who` holds `permission` on `token_id`: the flag last written, false where none was.
pub open spec fn has_access(s: Ledger, permission: Permission, who: Seq<u8>, token_id: u32) -> bool {
    let key = StorageKeyView::AccessGrant(permission, who, token_id);
    if s.contains_key(key) {
        match s[key] {
            StorageValueView::Flag(flag) => flag,
            _ => false,
        }
    } else {
        false
    }
}

/// Whether public data was ever added to `token_id`.
pub open spec fn has_public_data(s: Ledger, token_id: u32) -> bool {
    s.contains_key(StorageKeyView::PublicData(token_id))
}

/// Whether encrypted data was ever added to `token_id`.
pub open spec fn has_encrypted_data(s: Ledger, token_id: u32) -> bool {
    s.contains_key(StorageKeyView::EncryptedData(token_id))
}

/// The three existence probes for `token_id`, each under its name.
pub open spec fn integrity_report(s: Ledger, token_id: u32) -> Map<Seq<u8>, bool> {
    Map::<Seq<u8>, bool>::empty().insert("nft_exists".spec_bytes(), nft_exists(s, token_id)).insert(
        "public_data_exists".spec_bytes(),
        has_public_data(s, token_id),
    ).insert("encrypted_data_exists".spec_bytes(), has_encrypted_data(s, token_id))
}

/// The access statistics of `token_id`, each figure under its name.
pub open spec fn access_stats(s: Ledger, token_id: u32) -> Map<Seq<u8>, u32> {
    Map::<Seq<u8>, u32>::empty().insert("total_accesses".spec_bytes(), access_count(s, token_id)).insert(
        "nft_id".spec_bytes(),
        token_id,
    )
}

/// The statistics of the whole registry, each figure under its name.
pub open spec fn system_stats(s: Ledger) -> Map<Seq<u8>, u32> {
    Map::<Seq<u8>, u32>::empty().insert("total_nfts".spec_bytes(), total_nfts(s)).insert(
        "total_accesses".spec_bytes(),
        total_accesses(s) as u32,
    )
}

/// The bytes that a read of public data returns for a key without a value: those of "No data found".
pub open spec fn not_found() -> Seq<u8> {
    "No data found".spec_bytes()
}

/// What a read of public data returns for `key`.
pub open spec fn public_value(s: Ledger, token_id: u32, key: Seq<u8>) -> Seq<u8> {
    if public_data(s, token_id).contains_key(key) {
        public_data(s, token_id)[key]
    } else {
        not_found()
    }
}

/// The ciphertext kept for `key`; no bytes where there is none.
pub open spec fn encrypted_value(s: Ledger, token_id: u32, key: Seq<u8>) -> Seq<u8> {
    if encrypted_data(s, token_id).contains_key(key) {
        encrypted_data(s, token_id)[key]
    } else {
        Seq::empty()
    }
}

/// What a read of encrypted data hands to `requester`: the ciphertext where
/// the requester may read, and no bytes otherwise, whatever is stored.
pub open spec fn disclosed_value(s: Ledger, token_id: u32, key: Seq<u8>, requester: Seq<u8>) -> Seq<u8> {
    if has_access(s, Permission::Read, requester, token_id) {
        encrypted_value(s, token_id, key)
    } else {
        Seq::empty()
    }
}

/// The sum of the access counts of the tokens `0 .. n`.
pub open spec fn accesses_below(s: Ledger, n: nat) -> int
    decreases n,
{
    if n == 0 {
        0
    } else {
        accesses_below(s, (n - 1) as nat) + access_count(s, (n - 1) as u32)
    }
}

/// The sum over fewer tokens is no larger.
pub proof fn lemma_accesses_grow(s: Ledger, m: nat, n: nat)
    requires
        m <= n,
    ensures
        0 <= accesses_below(s, m) <= accesses_below(s, n),
    decreases n,
{
    if n == 0 {
    } else if m == n {
        lemma_accesses_grow(s, (m - 1) as nat, (n - 1) as nat);
    } else {
        lemma_accesses_grow(s, m, (n - 1) as nat);
    }
}

/// The sum of the access counts of all tokens created so far.
pub open spec fn total_accesses(s: Ledger) -> int {
    accesses_below(s, total_nfts(s) as nat)
}

/// The ledger after `admin` was made administrator.
pub open spec fn initialized(s: Ledger, admin: Seq<u8>) -> Ledger {
    s.insert(StorageKeyView::Admin, StorageValueView::Identity(admin))
}

/// The ledger after a token was created with `name` and `description`.
pub open spec fn with_nft(s: Ledger, name: Seq<u8>, description: Seq<u8>) -> Ledger {
    s.insert(StorageKeyView::TokenCounter, StorageValueView::Count((total_nfts(s) + 1) as u32)).insert(
        StorageKeyView::TokenRecord(total_nfts(s)),
        StorageValueView::Record(name, description),
    )
}

/// The ledger after one token was created for each item of `items`, in
/// their order; an item is a name and a description.
pub open spec fn with_nfts(s: Ledger, items: Seq<(Seq<u8>, Seq<u8>)>) -> Ledger
    decreases items.len(),
{
    if items.len() == 0 {
        s
    } else {
        with_nft(with_nfts(s, items.drop_last()), items.last().0, items.last().1)
    }
}

/// Records are kept for exactly the identifiers assigned so far.
pub open spec fn registry_consistent(s: Ledger) -> bool {
    forall|token_id: u32| nft_exists(s, token_id) <==> token_id < total_nfts(s)
}

/// The ledger after `value` was stored under `key` in the public data of `token_id`.
pub open spec fn with_public_data(s: Ledger, token_id: u32, key: Seq<u8>, value: Seq<u8>) -> Ledger {
    s.insert(
        StorageKeyView::PublicData(token_id),
        StorageValueView::PublicData(public_data(s, token_id).insert(key, value)),
    )
}

/// The ledger after `value` was stored under `key` in the encrypted data of `token_id`.
pub open spec fn with_encrypted_data(s: Ledger, token_id: u32, key: Seq<u8>, value: Seq<u8>) -> Ledger {
    s.insert(
        StorageKeyView::EncryptedData(token_id),
        StorageValueView::EncryptedData(encrypted_data(s, token_id).insert(key, value)),
    )
}

/// The ledger after the flag of `permission` for `who` on `token_id` was written.
pub open spec fn with_access(s: Ledger, permission: Permission, who: Seq<u8>, token_id: u32, flag: bool) -> Ledger {
    s.insert(StorageKeyView::AccessGrant(permission, who, token_id), StorageValueView::Flag(flag))
}

/// The ledger after one more read of the data of `token_id` was counted.
pub open spec fn with_access_counted(s: Ledger, token_id: u32) -> Ledger {
    s.insert(
        StorageKeyView::AccessCount(token_id),
        StorageValueView::Count((access_count(s, token_id) + 1) as u32),
    )
}

} // verus!
