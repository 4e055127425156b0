//! Genesis construction for a proof-of-stake chain: seed labels are turned
//! into key material, and key material into the initial state of every module.

pub mod account;
pub mod balances;
pub mod genesis;
pub mod keys;
pub mod profile;

pub use account::{AccountId, KeyRole, KeyScheme, PublicKey, KEY_LENGTH};
pub use balances::BalancesConfig;
pub use genesis::{
    session_keys, testnet_genesis, BabeConfig, CollectiveConfig, GenesisConfig, GrandpaConfig,
    IndicesConfig, MembershipConfig, Perbill, SessionConfig, SessionKeys, StakerStatus,
    StakingConfig, SudoConfig, SystemConfig, TreasuryConfig, ENDOWMENT, INITIAL_STAKING,
    SLASH_REWARD_PERCENT,
};
pub use keys::{
    authority_keys_from_seed, can_derive, can_derive_identity, get_account_id_from_seed,
    get_from_seed, try_authority_keys_from_seed, try_get_account_id_from_seed, try_get_from_seed,
    AuthorityKeys,
};
pub use profile::{development_config, load_spec, ChainSpec, ChainType, SpecSource};
