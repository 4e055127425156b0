//! Plain-value identities: public keys and the account ids derived from them.

use vstd::prelude::*;
use vstd::std_specs::cmp::PartialEqSpecImpl;

verus! {

/// Number of bytes in a public key and in an account id.
pub const KEY_LENGTH: usize = 32;

/// A cryptographic scheme under which genesis keys are derived.
#[derive(Clone, Copy, Debug, PartialEq, Eq, Structural)]
pub enum KeyScheme {
    /// Schnorr signatures over Ristretto25519.
    Sr25519,
    /// Edwards-curve signatures over Curve25519.
    Ed25519,
}

/// The purpose a key serves for a genesis participant.
#[derive(Clone, Copy, Debug, PartialEq, Eq, Structural)]
pub enum KeyRole {
    /// The account that issues staking decisions.
    Controller,
    /// The account that holds the bonded stake.
    Stash,
    /// The key that votes on finality.
    Finality,
    /// The key that authors blocks.
    BlockProduction,
}

impl KeyRole {
    /// The scheme each role is bound to.
    pub open spec fn spec_scheme(self) -> KeyScheme {
        match self {
            KeyRole::Controller => KeyScheme::Sr25519,
            KeyRole::Stash => KeyScheme::Sr25519,
            KeyRole::Finality => KeyScheme::Ed25519,
            KeyRole::BlockProduction => KeyScheme::Sr25519,
        }
    }

    /// The scheme each role is bound to.
    #[verifier::when_used_as_spec(spec_scheme)]
    pub fn scheme(self) -> (scheme: KeyScheme)
        ensures
            scheme == self.spec_scheme(),
    {
        match self {
            KeyRole::Controller => KeyScheme::Sr25519,
            KeyRole::Stash => KeyScheme::Sr25519,
            KeyRole::Finality => KeyScheme::Ed25519,
            KeyRole::BlockProduction => KeyScheme::Sr25519,
        }
    }
}

/// Whether two 32-byte arrays hold the same bytes.
fn same_bytes(a: &[u8; 32], b: &[u8; 32]) -> (same: bool)
    ensures
        same == (a@ == b@),
{
    let mut i: usize = 0;
    while i < 32
        invariant
            i <= 32,
            forall|j: int| 0 <= j < i ==> a@[j] == b@[j],
        decreases 32 - i,
    {
        if a[i] != b[i] {
            return false;
        }
        i += 1;
    }
    assert(a@ =~= b@);
    true
}

/// A raw public key of either scheme.
#[derive(Clone, Copy, Debug, Eq)]
pub struct PublicKey {
    pub bytes: [u8; 32],
}

impl View for PublicKey {
    type V = Seq<u8>;

    open spec fn view(&self) -> Seq<u8> {
        self.bytes@
    }
}

impl PartialEq for PublicKey {
    fn eq(&self, other: &Self) -> (same: bool) {
        same_bytes(&self.bytes, &other.bytes)
    }
}

impl PartialEqSpecImpl for PublicKey {
    open spec fn obeys_eq_spec() -> bool {
        true
    }

    open spec fn eq_spec(&self, other: &Self) -> bool {
        self@ == other@
    }
}

/// The identity of an account: the join key across every module's state.
#[derive(Clone, Copy, Debug, Eq)]
pub struct AccountId {
    pub bytes: [u8; 32],
}

impl View for AccountId {
    type V = Seq<u8>;

    open spec fn view(&self) -> Seq<u8> {
        self.bytes@
    }
}

impl PartialEq for AccountId {
    fn eq(&self, other: &Self) -> (same: bool) {
        same_bytes(&self.bytes, &other.bytes)
    }
}

impl PartialEqSpecImpl for AccountId {
    open spec fn obeys_eq_spec() -> bool {
        true
    }

    open spec fn eq_spec(&self, other: &Self) -> bool {
        self@ == other@
    }
}

/// Two account ids with the same bytes are the same account id, and every
/// account id has `KEY_LENGTH` bytes.
pub proof fn lemma_account_id_is_its_bytes(a: AccountId, b: AccountId)
    ensures
        a@.len() == KEY_LENGTH,
        a@ == b@ <==> a == b,
{
    if a@ == b@ {
        assert(a.bytes =~= b.bytes);
    }
}

} // verus!
