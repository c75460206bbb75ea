//! A data registry for non-fungible token identifiers: one administrator
//! registers tokens, attaches public and encrypted data to them, and decides
//! who may read the encrypted tier; every read is counted.
//!
//! The registry keeps its state in a [`Store`], a key-value store with typed
//! keys, and every operation of [`NFTDataSharing`] works on the store it is
//! handed. What an operation returns and how it changes the store is stated
//! over the functions of [`model`]; [`laws`] proves what follows for
//! sequences of operations.
//!
//! The data of a token is kept in maps of the Soroban host, and reports are
//! handed out in such maps. [`host`] states what the registry takes on trust
//! about them; everything else is proved.

pub mod assoc;
pub mod contract;
pub mod host;
pub mod identity;
pub mod laws;
pub mod model;
pub mod store;
pub mod table;

pub use contract::{AuthorizationError, NFTDataSharing};
pub use identity::Identity;
pub use store::{BytesMap, Permission, StorageKey, StorageValue, Store, StringMap};
pub use table::Table;
