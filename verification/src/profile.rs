//! Named chain profiles: the built-in development chain, and the choice
//! between a built-in profile and a descriptor stored in a file.

use crate::account::{AccountId, KeyRole};
use crate::genesis::{
    account_ids, assembled_genesis, cross_referenced, identities_of,
    lemma_cross_reference_integrity, staker_entry, testnet_genesis, GenesisConfig, GenesisView,
    StakerStatus, INITIAL_STAKING,
};
use crate::keys::{
    derivable, derived_account, derived_identity, get_account_id_from_seed, identity_derivable,
    try_authority_keys_from_seed, try_get_account_id_from_seed, AuthorityKeys,
};
use vstd::prelude::*;
use vstd::string::StringExecFns;

verus! {

/// What kind of network a chain is.
#[derive(Clone, Copy, Debug, PartialEq, Eq, Structural)]
pub enum ChainType {
    /// A chain on one developer's machine.
    Development,
    /// A chain shared by a few local nodes.
    Local,
    /// A public chain.
    Live,
}

/// A chain's name and kind together with its genesis state.
#[derive(Clone, Debug, PartialEq, Eq)]
pub struct ChainSpec {
    pub name: String,
    pub id: String,
    pub chain_type: ChainType,
    pub genesis: GenesisConfig,
    pub boot_nodes: Vec<String>,
    pub protocol_id: Option<String>,
}

/// A chain descriptor over plain sequences.
#[verifier::ext_equal]
pub struct ChainSpecView {
    pub name: Seq<char>,
    pub id: Seq<char>,
    pub chain_type: ChainType,
    pub genesis: GenesisView,
    pub boot_nodes: Seq<Seq<char>>,
    pub protocol_id: Option<Seq<char>>,
}

impl View for ChainSpec {
    type V = ChainSpecView;

    open spec fn view(&self) -> ChainSpecView {
        ChainSpecView {
            name: self.name@,
            id: self.id@,
            chain_type: self.chain_type,
            genesis: self.genesis@,
            boot_nodes: self.boot_nodes@.map_values(|node: String| node@),
            protocol_id: match self.protocol_id {
                Some(protocol) => Some(protocol@),
                None => None,
            },
        }
    }
}

/// Whether every seed of the development profile is accepted in each role
/// that the profile uses it in.
pub open spec fn development_derivable() -> bool {
    &&& identity_derivable("Alice"@)
    &&& derivable("Bob"@, KeyRole::Controller)
    &&& derivable("Bob"@, KeyRole::Stash)
}

/// The accounts that the development profile funds: Alice, Bob, and the
/// stash account of each.
pub open spec fn development_endowed() -> Seq<Seq<u8>>
    recommends
        development_derivable(),
{
    seq![
        derived_account("Alice"@, KeyRole::Controller).unwrap(),
        derived_account("Bob"@, KeyRole::Controller).unwrap(),
        derived_account("Alice"@, KeyRole::Stash).unwrap(),
        derived_account("Bob"@, KeyRole::Stash).unwrap(),
    ]
}

/// The genesis state of the development profile: Alice is the only
/// validator and the administrator.
pub open spec fn development_genesis(code: Seq<u8>) -> GenesisView
    recommends
        development_derivable(),
{
    assembled_genesis(
        code,
        seq![derived_identity("Alice"@)],
        derived_account("Alice"@, KeyRole::Controller).unwrap(),
        development_endowed(),
    )
}

/// The descriptor of the development chain.
pub open spec fn development_spec(code: Seq<u8>) -> ChainSpecView
    recommends
        development_derivable(),
{
    ChainSpecView {
        name: "Development"@,
        id: "dev"@,
        chain_type: ChainType::Development,
        genesis: development_genesis(code),
        boot_nodes: Seq::empty(),
        protocol_id: None,
    }
}

/// The descriptor of the development chain around the given runtime code.
///
/// The seeds are fixed, so a key scheme that rejects one of them is a defect
/// of the build; the error says so.
pub fn development_config(code: Vec<u8>) -> (config: Result<ChainSpec, String>)
    ensures
        config is Ok <==> development_derivable(),
        config matches Ok(spec) ==> spec@ == development_spec(code@),
        config matches Err(message) ==> message@ == "a development seed is not a valid derivation path"@,
{
    let alice = try_authority_keys_from_seed("Alice");
    let bob = try_get_account_id_from_seed("Bob", KeyRole::Controller);
    let bob_stash = try_get_account_id_from_seed("Bob", KeyRole::Stash);
    match (alice, bob, bob_stash) {
        (Some(alice), Some(bob), Some(bob_stash)) => {
            let mut initial_authorities: Vec<AuthorityKeys> = Vec::new();
            initial_authorities.push(alice);
            let root_key = get_account_id_from_seed("Alice", KeyRole::Controller);
            let mut endowed_accounts: Vec<AccountId> = Vec::new();
            endowed_accounts.push(get_account_id_from_seed("Alice", KeyRole::Controller));
            endowed_accounts.push(bob);
            endowed_accounts.push(get_account_id_from_seed("Alice", KeyRole::Stash));
            endowed_accounts.push(bob_stash);
            assert(identities_of(initial_authorities@) =~= seq![derived_identity("Alice"@)]);
            assert(account_ids(endowed_accounts@) =~= development_endowed());
            let genesis = testnet_genesis(
                code,
                initial_authorities,
                root_key,
                endowed_accounts,
                true,
            );
            let spec = ChainSpec {
                name: String::from_str("Development"),
                id: String::from_str("dev"),
                chain_type: ChainType::Development,
                genesis,
                boot_nodes: Vec::new(),
                protocol_id: None,
            };
            assert(spec@ =~= development_spec(code@));
            Ok(spec)
        },
        _ => Err(String::from_str("a development seed is not a valid derivation path")),
    }
}

/// Where a chain descriptor comes from.
#[derive(Clone, Debug, PartialEq, Eq)]
pub enum SpecSource {
    /// The built-in development profile.
    Development,
    /// A descriptor stored in the file at this path.
    File(String),
}

/// Reads a descriptor selector: `dev` names the built-in development
/// profile, and anything else is the path of a file that holds a descriptor.
pub fn load_spec(id: &str) -> (source: SpecSource)
    ensures
        id@ == "dev"@ ==> source is Development,
        id@ != "dev"@ ==> (source matches SpecSource::File(path) && path@ == id@),
{
    let selector = String::from_str(id);
    if selector == String::from_str("dev") {
        SpecSource::Development
    } else {
        SpecSource::File(selector)
    }
}

/// In the development profile, where its seeds are accepted: every account
/// that the session and the staking state refer to holds a balance above
/// zero; two validators are wanted and one is required; Alice's stash and
/// controller make up the only staker entry, and her stash is the only
/// account exempt from slashing; the four funded accounts have the indices
/// zero to three in the order Alice, Bob, Alice's stash, Bob's stash.
pub proof fn lemma_development_profile(code: Seq<u8>)
    requires
        development_derivable(),
    ensures
        cross_referenced(development_genesis(code)),
        development_genesis(code).staking.validator_count == 2,
        development_genesis(code).staking.minimum_validator_count == 1,
        development_genesis(code).staking.stakers == seq![
            (
                derived_account("Alice"@, KeyRole::Stash).unwrap(),
                derived_account("Alice"@, KeyRole::Controller).unwrap(),
                INITIAL_STAKING,
                StakerStatus::Validator,
            ),
        ],
        development_genesis(code).staking.invulnerables == seq![
            derived_account("Alice"@, KeyRole::Stash).unwrap(),
        ],
        development_genesis(code).indices == seq![
            (0int, derived_account("Alice"@, KeyRole::Controller).unwrap()),
            (1int, derived_account("Bob"@, KeyRole::Controller).unwrap()),
            (2int, derived_account("Alice"@, KeyRole::Stash).unwrap()),
            (3int, derived_account("Bob"@, KeyRole::Stash).unwrap()),
        ],
        development_genesis(code).sudo_key == derived_account("Alice"@, KeyRole::Controller).unwrap(),
        development_genesis(code).technical_membership == seq![
            derived_account("Alice"@, KeyRole::Controller).unwrap(),
        ],
{
    let alice = derived_identity("Alice"@);
    let identities = seq![alice];
    let endowed = development_endowed();
    assert(endowed[0] == alice.controller);
    assert(endowed[2] == alice.stash);
    assert(endowed.contains(alice.controller));
    assert(endowed.contains(alice.stash));
    lemma_cross_reference_integrity(code, identities, alice.controller, endowed);
    let genesis = development_genesis(code);
    assert(genesis.staking.stakers =~= seq![staker_entry(alice)]);
    assert(genesis.staking.invulnerables =~= seq![alice.stash]);
    assert(genesis.indices =~= seq![
        (0int, endowed[0]),
        (1int, endowed[1]),
        (2int, endowed[2]),
        (3int, endowed[3]),
    ]);
}

} // verus!
