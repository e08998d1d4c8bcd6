//! Accounts: the public key of a signer, and the account id derived from it.
use vstd::prelude::*;

use sp_runtime::traits::IdentifyAccount;

verus! {

/// The public key of a transaction signer, in one of the schemes that the
/// chain accepts.
#[derive(Clone, Copy, Debug, PartialEq, Eq)]
pub enum Signer {
    /// An Ed25519 public key.
    Ed25519([u8; 32]),
    /// An Sr25519 public key.
    Sr25519([u8; 32]),
    /// A compressed SECP256k1 public key.
    Ecdsa([u8; 33]),
}

/// A 256-bit account identifier.
#[derive(Clone, Copy, Debug, PartialEq, Eq)]
pub struct AccountId(pub [u8; 32]);

/// The account of an ECDSA signer, from its compressed public key.
pub uninterp spec fn ecdsa_account_of(key: Seq<u8>) -> Seq<u8>;

/// The bytes of the account id of `signer`: an Ed25519 or Sr25519 key is its
/// own account id; an ECDSA key is hashed.
pub open spec fn account_of(signer: Signer) -> Seq<u8> {
    match signer {
        Signer::Ed25519(k) => k@,
        Signer::Sr25519(k) => k@,
        Signer::Ecdsa(k) => ecdsa_account_of(k@),
    }
}

/// Relies on sp_runtime's `IdentifyAccount::into_account` for `MultiSigner`:
/// an Ed25519 or Sr25519 key gives the account of the same 32 bytes, an ECDSA
/// key the BLAKE2b-256 hash of its 33 bytes, which depends on them alone.
#[verifier::external_body]
fn into_account(signer: &Signer) -> (r: [u8; 32])
    ensures
        match *signer {
            Signer::Ed25519(k) => r@ == k@,
            Signer::Sr25519(k) => r@ == k@,
            Signer::Ecdsa(k) => r@ == ecdsa_account_of(k@),
        },
{
    let multi = match signer {
        Signer::Ed25519(k) => sp_runtime::MultiSigner::Ed25519(sp_core::ed25519::Public::from_raw(*k)),
        Signer::Sr25519(k) => sp_runtime::MultiSigner::Sr25519(sp_core::sr25519::Public::from_raw(*k)),
        Signer::Ecdsa(k) => sp_runtime::MultiSigner::Ecdsa(sp_core::ecdsa::Public::from_raw(*k)),
    };
    multi.into_account().into()
}

/// The account id of `signer`.
pub fn derive_account_id(signer: &Signer) -> (r: AccountId)
    ensures
        r.0@ == account_of(*signer),
{
    AccountId(into_account(signer))
}

/// Deriving twice from one key gives identical account ids.
pub proof fn lemma_derivation_deterministic(signer: Signer, first: AccountId, second: AccountId)
    requires
        first.0@ == account_of(signer),
        second.0@ == account_of(signer),
    ensures
        first == second,
{
    assert(first.0 =~= second.0);
}

/// Two distinct Ed25519 keys, or two distinct Sr25519 keys, have distinct
/// account ids.
pub proof fn lemma_distinct_keys_distinct_accounts(a: Signer, b: Signer)
    requires
        (a is Ed25519 && b is Ed25519) || (a is Sr25519 && b is Sr25519),
        a != b,
    ensures
        account_of(a) != account_of(b),
{
    match (a, b) {
        (Signer::Ed25519(x), Signer::Ed25519(y)) => {
            if x@ == y@ {
                assert(x =~= y);
            }
        },
        (Signer::Sr25519(x), Signer::Sr25519(y)) => {
            if x@ == y@ {
                assert(x =~= y);
            }
        },
        _ => {},
    }
}

} // verus!
