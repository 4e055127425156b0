//! The key deriver: from a seed label and a role to a public key, an account
//! id, or the full identity of a genesis participant.
//!
//! Key derivation itself is done by the key schemes of `sp_core` and by the
//! consensus crates' authority pairs. This module builds the derivation path,
//! picks the scheme for the role and states how the results are put together.

use crate::account::{AccountId, KeyRole, KeyScheme, PublicKey};
use sp_core::Pair;
use sp_runtime::traits::IdentifyAccount;
use vstd::prelude::*;
use vstd::string::StringExecFns;

verus! {

/// The public key of the `sp_core::sr25519` pair that the secret URI `suri`
/// denotes, or `None` where the scheme rejects the URI.
pub uninterp spec fn sr25519_public_key(suri: Seq<char>) -> Option<Seq<u8>>;

/// The public key of the finality-gadget authority pair that the secret URI
/// `suri` denotes, or `None` where the pair's scheme rejects the URI.
pub uninterp spec fn grandpa_public_key(suri: Seq<char>) -> Option<Seq<u8>>;

/// The public key of the block-production authority pair that the secret URI
/// `suri` denotes, or `None` where the pair's scheme rejects the URI.
pub uninterp spec fn babe_public_key(suri: Seq<char>) -> Option<Seq<u8>>;

/// The bytes of an optional 32-byte array.
pub open spec fn bytes_of(key: Option<[u8; 32]>) -> Option<Seq<u8>> {
    match key {
        Some(bytes) => Some(bytes@),
        None => None,
    }
}

/// Trusted: `sp_core::sr25519::Pair::from_string(suri, None)` followed by
/// `Pair::public`. The contract claims that the outcome depends on the URI
/// alone, and gives it its name: the bytes of the public key, or `None` where
/// `from_string` returns an error. Which URIs are accepted is not claimed.
#[verifier::external_body]
fn sr25519_public_from_suri(suri: &str) -> (key: Option<[u8; 32]>)
    ensures
        bytes_of(key) == sr25519_public_key(suri@),
{
    match sp_core::sr25519::Pair::from_string(suri, None) {
        Ok(pair) => Some(pair.public().0),
        Err(_) => None,
    }
}

/// Trusted: `sp_finality_grandpa::AuthorityPair::from_string(suri, None)`
/// followed by `Pair::public`. The contract claims that the outcome depends
/// on the URI alone, and gives it its name: the bytes of the public key, or
/// `None` where `from_string` returns an error.
#[verifier::external_body]
fn grandpa_public_from_suri(suri: &str) -> (key: Option<[u8; 32]>)
    ensures
        bytes_of(key) == grandpa_public_key(suri@),
{
    match sp_finality_grandpa::AuthorityPair::from_string(suri, None) {
        Ok(pair) => Some(sp_core::ed25519::Public::from(pair.public()).0),
        Err(_) => None,
    }
}

/// Trusted: `sp_consensus_babe::AuthorityPair::from_string(suri, None)`
/// followed by `Pair::public`. The contract claims that the outcome depends
/// on the URI alone, and gives it its name: the bytes of the public key, or
/// `None` where `from_string` returns an error.
#[verifier::external_body]
fn babe_public_from_suri(suri: &str) -> (key: Option<[u8; 32]>)
    ensures
        bytes_of(key) == babe_public_key(suri@),
{
    match sp_consensus_babe::AuthorityPair::from_string(suri, None) {
        Ok(pair) => Some(sp_core::sr25519::Public::from(pair.public()).0),
        Err(_) => None,
    }
}

/// Trusted: `sp_runtime::MultiSigner::from` on an `sp_core::sr25519::Public`,
/// followed by `IdentifyAccount::into_account`. The contract claims that for
/// this scheme the account id is the public key, byte for byte.
#[verifier::external_body]
fn sr25519_into_account(public: [u8; 32]) -> (account: [u8; 32])
    ensures
        account@ == public@,
{
    let signer = sp_runtime::MultiSigner::from(sp_core::sr25519::Public::from_raw(public));
    signer.into_account().into()
}

/// Trusted: `sp_runtime::MultiSigner::from` on an `sp_core::ed25519::Public`,
/// followed by `IdentifyAccount::into_account`. The contract claims that for
/// this scheme the account id is the public key, byte for byte.
#[verifier::external_body]
fn ed25519_into_account(public: [u8; 32]) -> (account: [u8; 32])
    ensures
        account@ == public@,
{
    let signer = sp_runtime::MultiSigner::from(sp_core::ed25519::Public::from_raw(public));
    signer.into_account().into()
}

/// The derivation path of a role's key: two slashes and the seed, and for the
/// stash account a further hard junction `stash`.
pub open spec fn derivation_path(seed: Seq<char>, role: KeyRole) -> Seq<char> {
    let root = seq!['/', '/'] + seed;
    if role is Stash {
        root + seq!['/', '/', 's', 't', 'a', 's', 'h']
    } else {
        root
    }
}

/// The public key that a seed yields in a role, where the role's scheme
/// accepts the derivation path.
pub open spec fn derived_public(seed: Seq<char>, role: KeyRole) -> Option<Seq<u8>> {
    let path = derivation_path(seed, role);
    match role {
        KeyRole::Controller => sr25519_public_key(path),
        KeyRole::Stash => sr25519_public_key(path),
        KeyRole::Finality => grandpa_public_key(path),
        KeyRole::BlockProduction => babe_public_key(path),
    }
}

/// Whether the role's scheme accepts the derivation path of the seed.
pub open spec fn derivable(seed: Seq<char>, role: KeyRole) -> bool {
    derived_public(seed, role) is Some
}

/// The account id that belongs to a public key: for both schemes the key's
/// own bytes.
pub open spec fn account_of(public: Seq<u8>) -> Seq<u8> {
    public
}

/// The account id that a seed yields in a role.
pub open spec fn derived_account(seed: Seq<char>, role: KeyRole) -> Option<Seq<u8>> {
    match derived_public(seed, role) {
        Some(public) => Some(account_of(public)),
        None => None,
    }
}

/// Writes out the derivation path of a role's key.
pub fn build_derivation_path(seed: &str, role: KeyRole) -> (path: String)
    ensures
        path@ == derivation_path(seed@, role),
{
    proof {
        reveal_strlit("//");
        reveal_strlit("//stash");
    }
    let mut path = String::from_str("//");
    path.append(seed);
    assert(path@ =~= seq!['/', '/'] + seed@);
    match role {
        KeyRole::Stash => {
            path.append("//stash");
            assert(path@ =~= seq!['/', '/'] + seed@ + seq!['/', '/', 's', 't', 'a', 's', 'h']);
        },
        _ => {},
    }
    path
}

/// Runs the derivation of the role's scheme on the seed's path.
fn derive_key_bytes(seed: &str, role: KeyRole) -> (key: Option<[u8; 32]>)
    ensures
        bytes_of(key) == derived_public(seed@, role),
{
    let path = build_derivation_path(seed, role);
    match role {
        KeyRole::Controller => sr25519_public_from_suri(path.as_str()),
        KeyRole::Stash => sr25519_public_from_suri(path.as_str()),
        KeyRole::Finality => grandpa_public_from_suri(path.as_str()),
        KeyRole::BlockProduction => babe_public_from_suri(path.as_str()),
    }
}

impl PublicKey {
    /// Wraps the outcome of a derivation: a key where the scheme produced
    /// one, nothing where it rejected the path.
    pub fn from_derivation(derived: Option<[u8; 32]>) -> (key: Option<PublicKey>)
        ensures
            derived is Some <==> key is Some,
            derived matches Some(bytes) ==> key == Some(PublicKey { bytes }),
    {
        match derived {
            Some(bytes) => Some(PublicKey { bytes }),
            None => None,
        }
    }

    /// The account that this key of the given scheme identifies.
    pub fn into_account(self, scheme: KeyScheme) -> (account: AccountId)
        ensures
            account@ == account_of(self@),
    {
        let bytes = match scheme {
            KeyScheme::Sr25519 => sr25519_into_account(self.bytes),
            KeyScheme::Ed25519 => ed25519_into_account(self.bytes),
        };
        AccountId { bytes }
    }
}

/// Whether a key can be derived from the seed in the given role.
pub fn can_derive(seed: &str, role: KeyRole) -> (accepted: bool)
    ensures
        accepted == derivable(seed@, role),
{
    derive_key_bytes(seed, role).is_some()
}

/// The public key derived from a seed for a role.
///
/// The seed must be one that the role's scheme accepts; `try_get_from_seed`
/// makes that test itself.
pub fn get_from_seed(seed: &str, role: KeyRole) -> (key: PublicKey)
    requires
        derivable(seed@, role),
    ensures
        derived_public(seed@, role) == Some(key@),
{
    let derived = derive_key_bytes(seed, role);
    PublicKey::from_derivation(derived).unwrap()
}

/// The public key derived from a seed for a role, or `None` where the role's
/// scheme rejects the seed's derivation path.
pub fn try_get_from_seed(seed: &str, role: KeyRole) -> (key: Option<PublicKey>)
    ensures
        key is Some <==> derivable(seed@, role),
        key matches Some(k) ==> derived_public(seed@, role) == Some(k@),
{
    if can_derive(seed, role) {
        Some(get_from_seed(seed, role))
    } else {
        None
    }
}

/// The account id derived from a seed for a role.
///
/// The seed must be one that the role's scheme accepts;
/// `try_get_account_id_from_seed` makes that test itself.
pub fn get_account_id_from_seed(seed: &str, role: KeyRole) -> (account: AccountId)
    requires
        derivable(seed@, role),
    ensures
        derived_account(seed@, role) == Some(account@),
{
    get_from_seed(seed, role).into_account(role.scheme())
}

/// The account id derived from a seed for a role, or `None` where the role's
/// scheme rejects the seed's derivation path.
pub fn try_get_account_id_from_seed(seed: &str, role: KeyRole) -> (account: Option<AccountId>)
    ensures
        account is Some <==> derivable(seed@, role),
        account matches Some(a) ==> derived_account(seed@, role) == Some(a@),
{
    if can_derive(seed, role) {
        Some(get_account_id_from_seed(seed, role))
    } else {
        None
    }
}

/// The keys of one genesis participant: the stash account, the controller
/// account, the finality key and the block-production key, in this order.
pub type AuthorityKeys = (AccountId, AccountId, PublicKey, PublicKey);

/// The identity of one genesis participant, by the bytes of its keys.
pub struct ParticipantIdentity {
    /// The account that holds the bonded stake.
    pub stash: Seq<u8>,
    /// The account that issues staking decisions.
    pub controller: Seq<u8>,
    /// The key that votes on finality.
    pub grandpa: Seq<u8>,
    /// The key that authors blocks.
    pub babe: Seq<u8>,
}

/// The identity that a participant's keys stand for.
pub open spec fn identity_of(keys: AuthorityKeys) -> ParticipantIdentity {
    ParticipantIdentity {
        stash: keys.0@,
        controller: keys.1@,
        grandpa: keys.2@,
        babe: keys.3@,
    }
}

/// Whether all four keys of a participant can be derived from the seed.
pub open spec fn identity_derivable(seed: Seq<char>) -> bool {
    &&& derivable(seed, KeyRole::Stash)
    &&& derivable(seed, KeyRole::Controller)
    &&& derivable(seed, KeyRole::Finality)
    &&& derivable(seed, KeyRole::BlockProduction)
}

/// The identity derived from a seed: the accounts of the stash and the
/// controller role, and the public keys of the two consensus roles.
pub open spec fn derived_identity(seed: Seq<char>) -> ParticipantIdentity
    recommends
        identity_derivable(seed),
{
    ParticipantIdentity {
        stash: derived_account(seed, KeyRole::Stash).unwrap(),
        controller: derived_account(seed, KeyRole::Controller).unwrap(),
        grandpa: derived_public(seed, KeyRole::Finality).unwrap(),
        babe: derived_public(seed, KeyRole::BlockProduction).unwrap(),
    }
}

/// Whether all four keys of a participant can be derived from the seed.
pub fn can_derive_identity(seed: &str) -> (accepted: bool)
    ensures
        accepted == identity_derivable(seed@),
{
    can_derive(seed, KeyRole::Stash) && can_derive(seed, KeyRole::Controller) && can_derive(
        seed,
        KeyRole::Finality,
    ) && can_derive(seed, KeyRole::BlockProduction)
}

/// The keys of the genesis participant that a seed stands for.
///
/// Every role's scheme must accept the seed; `try_authority_keys_from_seed`
/// makes that test itself.
pub fn authority_keys_from_seed(seed: &str) -> (keys: AuthorityKeys)
    requires
        identity_derivable(seed@),
    ensures
        identity_of(keys) == derived_identity(seed@),
{
    (
        get_account_id_from_seed(seed, KeyRole::Stash),
        get_account_id_from_seed(seed, KeyRole::Controller),
        get_from_seed(seed, KeyRole::Finality),
        get_from_seed(seed, KeyRole::BlockProduction),
    )
}

/// The keys of the genesis participant that a seed stands for, or `None`
/// where the scheme of one of the four roles rejects the seed.
pub fn try_authority_keys_from_seed(seed: &str) -> (keys: Option<AuthorityKeys>)
    ensures
        keys is Some <==> identity_derivable(seed@),
        keys matches Some(k) ==> identity_of(k) == derived_identity(seed@),
{
    if can_derive_identity(seed) {
        Some(authority_keys_from_seed(seed))
    } else {
        None
    }
}

/// Derivation is repeatable: two keys that are each the key derived from one
/// seed in one role are the same key, whenever and wherever they were derived.
pub proof fn lemma_derivation_is_repeatable(
    seed: Seq<char>,
    role: KeyRole,
    first: PublicKey,
    second: PublicKey,
)
    requires
        derived_public(seed, role) == Some(first@),
        derived_public(seed, role) == Some(second@),
    ensures
        first == second,
{
    assert(first.bytes =~= second.bytes);
}

/// Distinct seeds have distinct derivation paths in every role, so no two
/// seeds are handed to a scheme as the same path.
pub proof fn lemma_distinct_seeds_have_distinct_paths(
    seed: Seq<char>,
    other: Seq<char>,
    role: KeyRole,
)
    requires
        seed != other,
    ensures
        derivation_path(seed, role) != derivation_path(other, role),
{
    let path = derivation_path(seed, role);
    let other_path = derivation_path(other, role);
    if path == other_path {
        let suffix: int = if role is Stash { 7 } else { 0 };
        assert(path.len() == 2 + seed.len() + suffix);
        assert(other_path.len() == 2 + other.len() + suffix);
        assert(seed =~= path.subrange(2, 2 + seed.len() as int));
        assert(other =~= other_path.subrange(2, 2 + other.len() as int));
    }
}

/// Two seeds that a role's scheme maps to different public keys have
/// different account ids in that role: the step from key to account id
/// neither fails nor merges keys.
pub proof fn lemma_distinct_keys_have_distinct_accounts(
    seed: Seq<char>,
    other: Seq<char>,
    role: KeyRole,
)
    requires
        derivable(seed, role),
        derivable(other, role),
        derived_public(seed, role) != derived_public(other, role),
    ensures
        derived_account(seed, role) is Some,
        derived_account(other, role) is Some,
        derived_account(seed, role) != derived_account(other, role),
{
}

} // verus!
