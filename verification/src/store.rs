//! The key-value store the registry persists its state in: typed keys, one
//! per kind of entry, and the values kept under them.

use crate::identity::Identity;
use crate::host::{blob_entries, text_entries};
use crate::table::{Key, Table};
use vstd::prelude::*;

verus! {

/// Public data of one token: string keys to string values, in a map of the host.
pub type StringMap = soroban_sdk::Map<soroban_sdk::String, soroban_sdk::String>;

/// Encrypted data of one token: string keys to ciphertext, in a map of the host.
pub type BytesMap = soroban_sdk::Map<soroban_sdk::String, soroban_sdk::Bytes>;

/// The store itself: every persisted entry under its key. Any value can be
/// kept under any key; the registry writes each kind of value under the keys
/// named beside it in `StorageValue`, and reads a value of another kind as absent.
pub type Store = Table<StorageKey, StorageValue>;

/// What the store holds, as a mathematical map.
pub type Ledger = Map<StorageKeyView, StorageValueView>;

/// The two permissions a requester can hold on a token. Neither implies the other.
#[derive(Clone, Copy, Debug, PartialEq, Eq, Structural)]
pub enum Permission {
    Read,
    Write,
}

/// The key of one entry. Keys of different kinds never collide, and two keys
/// of one kind are equal exactly when their identifiers are.
#[derive(Debug)]
pub enum StorageKey {
    /// The administrator's identity.
    Admin,
    /// The next token identifier to assign.
    TokenCounter,
    /// Name and description of a token.
    TokenRecord(u32),
    /// The public data of a token.
    PublicData(u32),
    /// The encrypted data of a token.
    EncryptedData(u32),
    /// How often a token's data was read.
    AccessCount(u32),
    /// Whether a requester holds a permission on a token.
    AccessGrant(Permission, Identity, u32),
}

/// A key as contracts see it.
pub enum StorageKeyView {
    Admin,
    TokenCounter,
    TokenRecord(u32),
    PublicData(u32),
    EncryptedData(u32),
    AccessCount(u32),
    AccessGrant(Permission, Seq<u8>, u32),
}

impl View for StorageKey {
    type V = StorageKeyView;

    open spec fn view(&self) -> StorageKeyView {
        match *self {
            StorageKey::Admin => StorageKeyView::Admin,
            StorageKey::TokenCounter => StorageKeyView::TokenCounter,
            StorageKey::TokenRecord(id) => StorageKeyView::TokenRecord(id),
            StorageKey::PublicData(id) => StorageKeyView::PublicData(id),
            StorageKey::EncryptedData(id) => StorageKeyView::EncryptedData(id),
            StorageKey::AccessCount(id) => StorageKeyView::AccessCount(id),
            StorageKey::AccessGrant(permission, who, id) => StorageKeyView::AccessGrant(
                permission,
                who@,
                id,
            ),
        }
    }
}

impl Key for StorageKey {
    fn same_as(&self, other: &StorageKey) -> (equal: bool) {
        match (self, other) {
            (StorageKey::Admin, StorageKey::Admin) => true,
            (StorageKey::TokenCounter, StorageKey::TokenCounter) => true,
            (StorageKey::TokenRecord(a), StorageKey::TokenRecord(b)) => *a == *b,
            (StorageKey::PublicData(a), StorageKey::PublicData(b)) => *a == *b,
            (StorageKey::EncryptedData(a), StorageKey::EncryptedData(b)) => *a == *b,
            (StorageKey::AccessCount(a), StorageKey::AccessCount(b)) => *a == *b,
            (StorageKey::AccessGrant(p, who, a), StorageKey::AccessGrant(q, whom, b)) => {
                *p == *q && who.same(whom) && *a == *b
            },
            _ => false,
        }
    }

    fn duplicate(&self) -> (copy: StorageKey) {
        match self {
            StorageKey::Admin => StorageKey::Admin,
            StorageKey::TokenCounter => StorageKey::TokenCounter,
            StorageKey::TokenRecord(id) => StorageKey::TokenRecord(*id),
            StorageKey::PublicData(id) => StorageKey::PublicData(*id),
            StorageKey::EncryptedData(id) => StorageKey::EncryptedData(*id),
            StorageKey::AccessCount(id) => StorageKey::AccessCount(*id),
            StorageKey::AccessGrant(permission, who, id) => StorageKey::AccessGrant(
                *permission,
                who.clone(),
                *id,
            ),
        }
    }
}

/// The value of one entry.
#[derive(Debug)]
pub enum StorageValue {
    /// An identity, kept under `StorageKey::Admin`.
    Identity(Identity),
    /// A counter, kept under `StorageKey::TokenCounter` and `StorageKey::AccessCount`.
    Count(u32),
    /// Name and description, kept under `StorageKey::TokenRecord`.
    Record(Vec<u8>, Vec<u8>),
    /// Kept under `StorageKey::PublicData`.
    PublicData(StringMap),
    /// Kept under `StorageKey::EncryptedData`.
    EncryptedData(BytesMap),
    /// A permission flag, kept under `StorageKey::AccessGrant`.
    Flag(bool),
}

/// A value as contracts see it.
pub enum StorageValueView {
    Identity(Seq<u8>),
    Count(u32),
    Record(Seq<u8>, Seq<u8>),
    PublicData(Map<Seq<u8>, Seq<u8>>),
    EncryptedData(Map<Seq<u8>, Seq<u8>>),
    Flag(bool),
}

impl View for StorageValue {
    type V = StorageValueView;

    open spec fn view(&self) -> StorageValueView {
        match *self {
            StorageValue::Identity(who) => StorageValueView::Identity(who@),
            StorageValue::Count(n) => StorageValueView::Count(n),
            StorageValue::Record(name, description) => StorageValueView::Record(
                name@,
                description@,
            ),
            StorageValue::PublicData(data) => StorageValueView::PublicData(text_entries(data)),
            StorageValue::EncryptedData(data) => StorageValueView::EncryptedData(blob_entries(data)),
            StorageValue::Flag(flag) => StorageValueView::Flag(flag),
        }
    }
}

} // verus!
