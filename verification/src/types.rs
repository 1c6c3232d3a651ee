//! Values that travel through the client: identifiers and keys that are only
//! carried, and the plain records the client reads.
use vstd::prelude::*;

verus! {

/// An account identifier. The client never looks inside one: it receives it
/// from the caller and hands it on.
#[verifier::external_type_specification]
#[verifier::external_body]
pub struct ExAccountId(near_primitives::types::AccountId);

/// A public key, carried as it is.
#[verifier::external_type_specification]
#[verifier::external_body]
pub struct ExPublicKey(near_crypto::PublicKey);

/// A key pair that can sign. The client holds it for the caller and never
/// changes it.
#[verifier::external_type_specification]
#[verifier::external_body]
pub struct ExSigner(near_crypto::Signer);

/// A block hash, carried as it is.
#[verifier::external_type_specification]
#[verifier::external_body]
pub struct ExCryptoHash(near_primitives::hash::CryptoHash);

/// A parsed JSON document.
#[verifier::external_type_specification]
#[verifier::external_body]
pub struct ExJsonValue(serde_json::Value);

/// Why a run of bytes is no UTF-8 text.
#[verifier::external_type_specification]
#[verifier::external_body]
pub struct ExUtf8Error(core::str::Utf8Error);

/// Why a text is no JSON document.
#[verifier::external_type_specification]
#[verifier::external_body]
pub struct ExJsonError(serde_json::Error);

/// `Clone::clone` of `near_primitives::types::AccountId`, which is derived:
/// the copy is the same identifier.
pub assume_specification[ <near_primitives::types::AccountId as Clone>::clone ](
    id: &near_primitives::types::AccountId,
) -> (r: near_primitives::types::AccountId)
    ensures
        r == *id,
;

/// `Clone::clone` of `near_crypto::PublicKey`, which is derived: the copy is
/// the same key.
pub assume_specification[ <near_crypto::PublicKey as Clone>::clone ](
    key: &near_crypto::PublicKey,
) -> (r: near_crypto::PublicKey)
    ensures
        r == *key,
;

/// `Clone::clone` of `near_crypto::Signer`, which is derived: the copy is the
/// same key pair.
pub assume_specification[ <near_crypto::Signer as Clone>::clone ](
    signer: &near_crypto::Signer,
) -> (r: near_crypto::Signer)
    ensures
        r == *signer,
;

/// `Clone::clone` of `near_primitives::hash::CryptoHash`, which is derived on
/// a `Copy` type: the copy is the same hash.
pub assume_specification[ <near_primitives::hash::CryptoHash as Clone>::clone ](
    hash: &near_primitives::hash::CryptoHash,
) -> (r: near_primitives::hash::CryptoHash)
    ensures
        r == *hash,
;

/// The public key that `near_crypto::Signer::public_key` reports for
/// `signer`.
pub uninterp spec fn public_half(signer: near_crypto::Signer) -> near_crypto::PublicKey;

/// `near_crypto::Signer::public_key`: the public half of the pair, which
/// depends on the pair alone.
#[verifier::external_body]
pub(crate) fn signer_public_key(signer: &near_crypto::Signer) -> (r: near_crypto::PublicKey)
    ensures
        r == public_half(*signer),
{
    signer.public_key()
}

/// The key pair that `near_crypto::InMemorySigner::from_seed` derives for
/// `account_id` from `seed`, with `KeyType::ED25519`.
pub uninterp spec fn seeded_pair(
    account_id: near_primitives::types::AccountId,
    seed: Seq<char>,
) -> near_crypto::Signer;

/// `near_crypto::InMemorySigner::from_seed` with `KeyType::ED25519`: the key
/// pair for `account_id` that is derived from `seed`. It depends on the
/// account and the seed alone.
#[verifier::external_body]
pub(crate) fn signer_from_seed(account_id: near_primitives::types::AccountId, seed: &str) -> (r:
    near_crypto::Signer)
    ensures
        r == seeded_pair(account_id, seed@),
{
    near_crypto::InMemorySigner::from_seed(account_id, near_crypto::KeyType::ED25519, seed)
}

/// Which state of the chain a read is answered from.
#[derive(Clone, Copy, Debug, PartialEq, Eq, Structural)]
pub enum BlockReference {
    /// The latest finalized block.
    Final,
    /// The latest block known to the node, final or not.
    Optimistic,
}

/// What an access key may be used for.
#[derive(Clone, Copy, Debug, PartialEq, Eq, Structural)]
pub enum AccessKeyPermission {
    FullAccess,
    FunctionCall,
}

/// The on-chain record that ties a public key to an account. Its nonce is the
/// last one the chain accepted for this key.
#[derive(Clone, Copy, Debug, PartialEq, Eq, Structural)]
pub struct AccessKey {
    pub nonce: u64,
    pub permission: AccessKeyPermission,
}

impl AccessKey {
    /// The nonce a new transaction under this key has to carry.
    pub open spec fn spec_next_nonce(self) -> Option<u64> {
        if self.nonce < u64::MAX {
            Some((self.nonce + 1) as u64)
        } else {
            None
        }
    }

    /// The nonce a new transaction under this key has to carry: one more than
    /// the last accepted one. There is none when the counter is at its end.
    pub fn next_nonce(&self) -> (r: Option<u64>)
        ensures
            r == self.spec_next_nonce(),
            r matches Some(n) ==> n > self.nonce,
    {
        self.nonce.checked_add(1)
    }
}

/// An amount of tokens, counted in the smallest unit.
pub type Balance = u128;

/// An amount of gas.
pub type Gas = u64;

/// Number of the smallest units in one whole token.
pub const NEAR_BASE: Balance = 1_000_000_000_000_000_000_000_000;

/// Gas attached to a function call when the caller names none.
pub const DEFAULT_CALL_FN_GAS: Gas = 10_000_000_000_000;

/// Deposit attached to a function call when the caller names none.
pub const DEFAULT_CALL_DEPOSIT: Balance = 0;

} // verus!
