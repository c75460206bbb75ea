//! What holds of the registry whatever it was asked before: laws that relate
//! one operation to another, each proved from the meaning of the entries.

use crate::model::{
    access_count, access_stats, system_stats, accesses_below, admin, disclosed_value, encrypted_data, encrypted_value,
    has_access, has_encrypted_data, has_public_data, initialized, integrity_report,
    lemma_accesses_grow, nft_exists,
    nft_info, not_found, public_data, public_value, registry_consistent, total_accesses,
    total_nfts, with_access, with_access_counted, with_encrypted_data, with_nft,
    with_nfts, with_public_data,
};
use crate::store::{Ledger, Permission, StorageKeyView, StorageValueView};
use vstd::prelude::*;
use vstd::string::StringSliceAdditionalSpecFns;

verus! {

/// Creating a token changes neither who the administrator is nor any data,
/// permission or access count.
pub proof fn law_create_keeps_the_rest(s: Ledger, name: Seq<u8>, description: Seq<u8>)
    ensures
        admin(with_nft(s, name, description)) == admin(s),
        forall|t: u32| public_data(with_nft(s, name, description), t) == public_data(s, t),
        forall|t: u32| encrypted_data(with_nft(s, name, description), t) == encrypted_data(s, t),
        forall|t: u32| access_count(with_nft(s, name, description), t) == access_count(s, t),
        forall|p: Permission, who: Seq<u8>, t: u32|
            has_access(with_nft(s, name, description), p, who, t) == has_access(s, p, who, t),
{
}

/// Tokens created one after the other get consecutive identifiers: the
/// token created after `k` others gets the identifier `k` places after the
/// first one, and in the end the number of tokens has grown by the number
/// of creations. In a store without tokens the identifiers are `0, 1, ..`.
pub proof fn law_identifiers_are_dense(s: Ledger, items: Seq<(Seq<u8>, Seq<u8>)>)
    requires
        total_nfts(s) + items.len() <= u32::MAX,
    ensures
        total_nfts(with_nfts(s, items)) == total_nfts(s) + items.len(),
        forall|k: int|
            0 <= k < items.len() ==> total_nfts(#[trigger] with_nfts(s, items.take(k))) == total_nfts(s) + k,
        admin(with_nfts(s, items)) == admin(s),
        total_nfts(Map::<StorageKeyView, StorageValueView>::empty()) == 0,
    decreases items.len(),
{
    if items.len() > 0 {
        let front = items.drop_last();
        law_identifiers_are_dense(s, front);
        assert forall|k: int| 0 <= k < items.len() implies total_nfts(
            #[trigger] with_nfts(s, items.take(k)),
        ) == total_nfts(s) + k by {
            if k < front.len() {
                assert(items.take(k) =~= front.take(k));
            } else {
                assert(items.take(k) =~= front);
            }
        }
    }
}

/// A public value that was added is the value that is read, until another
/// is stored under its key; other keys of the token and other tokens keep
/// what they had, and a key without a value reads as "No data found".
pub proof fn law_public_data_reads_back(s: Ledger, token_id: u32, key: Seq<u8>, value: Seq<u8>)
    ensures
        public_value(with_public_data(s, token_id, key, value), token_id, key) == value,
        forall|other: Seq<u8>|
            other != key ==> public_value(with_public_data(s, token_id, key, value), token_id, other)
                == public_value(s, token_id, other),
        forall|t: u32, k: Seq<u8>|
            t != token_id ==> public_value(with_public_data(s, token_id, key, value), t, k)
                == public_value(s, t, k),
        forall|other: Seq<u8>|
            !public_data(s, token_id).contains_key(other) ==> public_value(s, token_id, other)
                == not_found(),
        has_public_data(with_public_data(s, token_id, key, value), token_id),
{
}

/// Counting a read changes no data, permission or record: what was read can
/// be read again.
pub proof fn law_reads_keep_the_data(s: Ledger, token_id: u32)
    ensures
        admin(with_access_counted(s, token_id)) == admin(s),
        total_nfts(with_access_counted(s, token_id)) == total_nfts(s),
        forall|t: u32| nft_info(with_access_counted(s, token_id), t) == nft_info(s, t),
        forall|t: u32| public_data(with_access_counted(s, token_id), t) == public_data(s, t),
        forall|t: u32| encrypted_data(with_access_counted(s, token_id), t) == encrypted_data(s, t),
        forall|p: Permission, who: Seq<u8>, t: u32|
            has_access(with_access_counted(s, token_id), p, who, t) == has_access(s, p, who, t),
{
}

/// Every read raises the access count of its token by exactly one, and the
/// count of no other token: a read of public data, a read of ciphertext by
/// anyone, and a gated read, whether it was granted or denied.
pub proof fn law_each_read_counts_once(s: Ledger, token_id: u32)
    requires
        access_count(s, token_id) < u32::MAX,
    ensures
        access_count(with_access_counted(s, token_id), token_id) == access_count(s, token_id) + 1,
        forall|t: u32| t != token_id ==> access_count(with_access_counted(s, token_id), t) == access_count(s, t),
{
}

/// A requester without the read permission gets no bytes, also for a key
/// under which ciphertext was stored.
pub proof fn law_no_grant_no_bytes(s: Ledger, token_id: u32, key: Seq<u8>, ciphertext: Seq<u8>, requester: Seq<u8>)
    requires
        !has_access(s, Permission::Read, requester, token_id),
    ensures
        !has_access(with_encrypted_data(s, token_id, key, ciphertext), Permission::Read, requester, token_id),
        disclosed_value(with_encrypted_data(s, token_id, key, ciphertext), token_id, key, requester)
            == Seq::<u8>::empty(),
        encrypted_value(with_encrypted_data(s, token_id, key, ciphertext), token_id, key) == ciphertext,
{
}

/// Once the read permission is granted, the requester reads exactly the
/// ciphertext that was stored; once it is revoked again, no bytes.
pub proof fn law_grant_then_revoke(s: Ledger, token_id: u32, key: Seq<u8>, ciphertext: Seq<u8>, requester: Seq<u8>)
    ensures
        ({
            let stored = with_encrypted_data(s, token_id, key, ciphertext);
            let granted = with_access(stored, Permission::Read, requester, token_id, true);
            let revoked = with_access(granted, Permission::Read, requester, token_id, false);
            &&& disclosed_value(granted, token_id, key, requester) == ciphertext
            &&& disclosed_value(revoked, token_id, key, requester) == Seq::<u8>::empty()
        }),
        ({
            let granted = with_access(s, Permission::Read, requester, token_id, true);
            let stored = with_encrypted_data(granted, token_id, key, ciphertext);
            let read = with_access_counted(stored, token_id);
            &&& disclosed_value(stored, token_id, key, requester) == ciphertext
            &&& disclosed_value(read, token_id, key, requester) == ciphertext
        }),
{
}

/// A permission that was never written is not held, and a permission that
/// was written is held exactly when the last write granted it. Writing one
/// permission leaves every other one as it was: read and write, requesters
/// and tokens are independent.
pub proof fn law_access_follows_last_write(s: Ledger, permission: Permission, who: Seq<u8>, token_id: u32, flag: bool)
    ensures
        !s.contains_key(StorageKeyView::AccessGrant(permission, who, token_id)) ==> !has_access(
            s,
            permission,
            who,
            token_id,
        ),
        has_access(with_access(s, permission, who, token_id, flag), permission, who, token_id) == flag,
        forall|p: Permission, w: Seq<u8>, t: u32|
            (p != permission || w != who || t != token_id) ==> has_access(
                with_access(s, permission, who, token_id, flag),
                p,
                w,
                t,
            ) == has_access(s, p, w, t),
        forall|p: Permission, w: Seq<u8>, t: u32|
            !has_access(Map::<StorageKeyView, StorageValueView>::empty(), p, w, t),
{
}

/// The sum of the access counts of the tokens below `n` does not depend on
/// the count of a token at or above `n`, and grows by one with a read of a
/// token below `n`.
pub proof fn law_sum_follows_reads(s: Ledger, token_id: u32, n: nat)
    requires
        access_count(s, token_id) < u32::MAX,
        n <= u32::MAX + 1,
    ensures
        accesses_below(with_access_counted(s, token_id), n) == accesses_below(s, n) + if token_id < n {
            1int
        } else {
            0int
        },
    decreases n,
{
    if n > 0 {
        law_sum_follows_reads(s, token_id, (n - 1) as nat);
        law_each_read_counts_once(s, token_id);
    }
}

/// The total of accesses is the sum of the access counts of the tokens
/// created so far, after any reads: a read of a created token raises it by
/// one, a read of any other token leaves it.
pub proof fn law_total_is_sum_of_counts(s: Ledger, token_id: u32)
    requires
        access_count(s, token_id) < u32::MAX,
    ensures
        total_accesses(s) == accesses_below(s, total_nfts(s) as nat),
        total_accesses(with_access_counted(s, token_id)) == total_accesses(s) + if token_id < total_nfts(s) {
            1int
        } else {
            0int
        },
{
    law_sum_follows_reads(s, token_id, total_nfts(s) as nat);
}

/// A ledger with the token counter and the records of a consistent one is consistent.
proof fn lemma_same_registry(s: Ledger, after: Ledger)
    requires
        registry_consistent(s),
        total_nfts(after) == total_nfts(s),
        forall|token_id: u32| nft_exists(after, token_id) == nft_exists(s, token_id),
    ensures
        registry_consistent(after),
{
    assert forall|token_id: u32| nft_exists(after, token_id) <==> token_id < total_nfts(after) by {
        assert(nft_exists(s, token_id) <==> token_id < total_nfts(s));
    }
}

/// A store without entries keeps records for exactly the identifiers
/// assigned so far, and every operation keeps it so.
pub proof fn law_registry_stays_consistent(s: Ledger)
    requires
        registry_consistent(s),
    ensures
        registry_consistent(Map::<StorageKeyView, StorageValueView>::empty()),
        forall|who: Seq<u8>| registry_consistent(#[trigger] initialized(s, who)),
        forall|name: Seq<u8>, description: Seq<u8>|
            total_nfts(s) < u32::MAX ==> registry_consistent(#[trigger] with_nft(s, name, description)),
        forall|t: u32, k: Seq<u8>, v: Seq<u8>| registry_consistent(#[trigger] with_public_data(s, t, k, v)),
        forall|t: u32, k: Seq<u8>, v: Seq<u8>| registry_consistent(#[trigger] with_encrypted_data(s, t, k, v)),
        forall|p: Permission, who: Seq<u8>, t: u32, flag: bool|
            registry_consistent(#[trigger] with_access(s, p, who, t, flag)),
        forall|t: u32| registry_consistent(#[trigger] with_access_counted(s, t)),
{
    assert forall|name: Seq<u8>, description: Seq<u8>| total_nfts(s) < u32::MAX implies registry_consistent(
        #[trigger] with_nft(s, name, description),
    ) by {
        let after = with_nft(s, name, description);
        assert forall|t: u32| nft_exists(after, t) <==> t < total_nfts(after) by {
            assert(nft_exists(s, t) <==> t < total_nfts(s));
        }
    }
    assert forall|who: Seq<u8>| registry_consistent(#[trigger] initialized(s, who)) by {
        lemma_same_registry(s, initialized(s, who));
    }
    assert forall|t: u32, k: Seq<u8>, v: Seq<u8>| registry_consistent(
        #[trigger] with_public_data(s, t, k, v),
    ) by {
        lemma_same_registry(s, with_public_data(s, t, k, v));
    }
    assert forall|t: u32, k: Seq<u8>, v: Seq<u8>| registry_consistent(
        #[trigger] with_encrypted_data(s, t, k, v),
    ) by {
        lemma_same_registry(s, with_encrypted_data(s, t, k, v));
    }
    assert forall|p: Permission, who: Seq<u8>, t: u32, flag: bool| registry_consistent(
        #[trigger] with_access(s, p, who, t, flag),
    ) by {
        lemma_same_registry(s, with_access(s, p, who, t, flag));
    }
    assert forall|t: u32| registry_consistent(#[trigger] with_access_counted(s, t)) by {
        lemma_same_registry(s, with_access_counted(s, t));
    }
}

/// The names under which the integrity report files its three answers are
/// distinct, so each answer can be read back under its name.
pub proof fn law_report_names_each_probe(s: Ledger, token_id: u32)
    ensures
        integrity_report(s, token_id)["nft_exists".spec_bytes()] == nft_exists(s, token_id),
        integrity_report(s, token_id)["public_data_exists".spec_bytes()] == has_public_data(s, token_id),
        integrity_report(s, token_id)["encrypted_data_exists".spec_bytes()] == has_encrypted_data(s, token_id),
{
    reveal_strlit("nft_exists");
    reveal_strlit("public_data_exists");
    reveal_strlit("encrypted_data_exists");
    vstd::utf8::is_ascii_chars_encode_utf8("nft_exists"@);
    vstd::utf8::is_ascii_chars_encode_utf8("public_data_exists"@);
    vstd::utf8::is_ascii_chars_encode_utf8("encrypted_data_exists"@);
    assert("nft_exists".spec_bytes().len() == 10);
    assert("public_data_exists".spec_bytes().len() == 18);
    assert("encrypted_data_exists".spec_bytes().len() == 21);
}

/// The names under which the statistics file their figures are distinct,
/// so each figure can be read back under its name.
pub proof fn law_stats_name_each_figure(s: Ledger, token_id: u32)
    requires
        total_accesses(s) <= u32::MAX,
    ensures
        access_stats(s, token_id)["total_accesses".spec_bytes()] == access_count(s, token_id),
        access_stats(s, token_id)["nft_id".spec_bytes()] == token_id,
        system_stats(s)["total_nfts".spec_bytes()] == total_nfts(s),
        system_stats(s)["total_accesses".spec_bytes()] == total_accesses(s),
{
    reveal_strlit("total_accesses");
    reveal_strlit("nft_id");
    reveal_strlit("total_nfts");
    vstd::utf8::is_ascii_chars_encode_utf8("total_accesses"@);
    vstd::utf8::is_ascii_chars_encode_utf8("nft_id"@);
    vstd::utf8::is_ascii_chars_encode_utf8("total_nfts"@);
    assert("total_accesses".spec_bytes().len() == 14);
    assert("nft_id".spec_bytes().len() == 6);
    assert("total_nfts".spec_bytes().len() == 10);
    lemma_accesses_grow(s, 0, total_nfts(s) as nat);
}

/// In a registry that keeps records for exactly the assigned identifiers,
/// the integrity report says that a token exists exactly when its
/// identifier was assigned: not before the token is created, always after,
/// and whether or not data was added to it.
pub proof fn law_existence_follows_creation(s: Ledger, name: Seq<u8>, description: Seq<u8>, token_id: u32)
    requires
        registry_consistent(s),
        total_nfts(s) < u32::MAX,
    ensures
        integrity_report(s, token_id)["nft_exists".spec_bytes()] == (token_id < total_nfts(s)),
        !integrity_report(s, total_nfts(s))["nft_exists".spec_bytes()],
        integrity_report(with_nft(s, name, description), total_nfts(s))["nft_exists".spec_bytes()],
        forall|t: u32, k: Seq<u8>, v: Seq<u8>|
            nft_exists(#[trigger] with_public_data(s, t, k, v), token_id) == nft_exists(s, token_id),
        forall|t: u32, k: Seq<u8>, v: Seq<u8>|
            nft_exists(#[trigger] with_encrypted_data(s, t, k, v), token_id) == nft_exists(s, token_id),
{
    law_report_names_each_probe(s, token_id);
    law_report_names_each_probe(s, total_nfts(s));
    law_report_names_each_probe(with_nft(s, name, description), total_nfts(s));
    assert(nft_exists(s, token_id) <==> token_id < total_nfts(s));
    assert(nft_exists(s, total_nfts(s)) <==> total_nfts(s) < total_nfts(s));
}

} // verus!
