use chain_genesis::{
    session_keys, testnet_genesis, AccountId, AuthorityKeys, GenesisConfig, Perbill, PublicKey,
    SessionKeys, StakerStatus, ENDOWMENT, INITIAL_STAKING, SLASH_REWARD_PERCENT,
};

fn id(tag: u8) -> AccountId {
    AccountId { bytes: [tag; 32] }
}

fn key(tag: u8) -> PublicKey {
    PublicKey { bytes: [tag; 32] }
}

fn validator(tag: u8) -> AuthorityKeys {
    (id(tag), id(tag + 1), key(tag + 2), key(tag + 3))
}

fn sample() -> GenesisConfig {
    testnet_genesis(
        vec![0, 97, 115, 109],
        vec![validator(10), validator(20)],
        id(11),
        vec![id(11), id(10), id(21), id(20), id(99)],
        false,
    )
}

#[test]
fn constants_have_their_values() {
    assert_eq!(ENDOWMENT, 1u128 << 60);
    assert_eq!(INITIAL_STAKING, 1_000_000_000_000_000_000u128);
    assert_eq!(SLASH_REWARD_PERCENT, 10);
}

#[test]
fn perbill_scales_percent_to_billionths() {
    assert_eq!(Perbill::from_percent(0).parts, 0);
    assert_eq!(Perbill::from_percent(1).parts, 10_000_000);
    assert_eq!(Perbill::from_percent(10).parts, 100_000_000);
    assert_eq!(Perbill::from_percent(100).parts, 1_000_000_000);
    assert_eq!(Perbill::from_percent(101).parts, 1_000_000_000);
    assert_eq!(Perbill::from_percent(u32::MAX).parts, 1_000_000_000);
}

#[test]
fn session_keys_hold_both_keys() {
    assert_eq!(session_keys(key(1), key(2)), SessionKeys { grandpa: key(1), babe: key(2) });
}

#[test]
fn system_state_embeds_the_runtime_code() {
    assert_eq!(sample().system.code, vec![0, 97, 115, 109]);
}

#[test]
fn every_funded_account_holds_the_endowment() {
    let genesis = sample();
    assert_eq!(genesis.balances.len(), 5);
    for (at, who) in [id(11), id(10), id(21), id(20), id(99)].iter().enumerate() {
        assert_eq!(genesis.balances.entry(at), (*who, ENDOWMENT));
        assert_eq!(genesis.balances.get(who), Some(1_152_921_504_606_846_976u128));
    }
    assert_eq!(genesis.balances.get(&id(12)), None);
}

#[test]
fn indices_enumerate_the_funded_accounts() {
    let (a, b, c, d) = (id(1), id(2), id(3), id(4));
    let genesis = testnet_genesis(vec![], vec![], a, vec![a, b, c, d], false);
    assert_eq!(genesis.indices.indices, vec![(0, a), (1, b), (2, c), (3, d)]);
}

#[test]
fn session_entries_name_the_controller_twice() {
    let genesis = sample();
    assert_eq!(
        genesis.session.keys,
        vec![
            (id(11), id(11), SessionKeys { grandpa: key(12), babe: key(13) }),
            (id(21), id(21), SessionKeys { grandpa: key(22), babe: key(23) }),
        ]
    );
}

#[test]
fn staking_counts_follow_the_number_of_validators() {
    let genesis = sample();
    assert_eq!(genesis.staking.minimum_validator_count, 2);
    assert_eq!(genesis.staking.validator_count, 4);
    let none = testnet_genesis(vec![], vec![], id(1), vec![], false);
    assert_eq!(none.staking.minimum_validator_count, 0);
    assert_eq!(none.staking.validator_count, 0);
    assert!(none.staking.stakers.is_empty());
    assert!(none.staking.invulnerables.is_empty());
    assert!(none.session.keys.is_empty());
    assert_eq!(none.balances.len(), 0);
    assert!(none.indices.indices.is_empty());
}

#[test]
fn every_validator_bonds_the_fixed_amount_from_its_stash() {
    let genesis = sample();
    assert_eq!(
        genesis.staking.stakers,
        vec![
            (id(10), id(11), 1_000_000_000_000_000_000u128, StakerStatus::Validator),
            (id(20), id(21), 1_000_000_000_000_000_000u128, StakerStatus::Validator),
        ]
    );
    assert_eq!(genesis.staking.invulnerables, vec![id(10), id(20)]);
    assert_eq!(genesis.staking.slash_reward_fraction, Perbill { parts: 100_000_000 });
}

#[test]
fn administrator_is_root_and_sole_technical_member() {
    let genesis = sample();
    assert_eq!(genesis.sudo.key, id(11));
    assert_eq!(genesis.technical_membership.members, vec![id(11)]);
}

#[test]
fn consensus_and_governance_states_start_empty() {
    let genesis = sample();
    assert!(genesis.babe.authorities.is_empty());
    assert!(genesis.grandpa.authorities.is_empty());
    assert!(genesis.council.members.is_empty());
    assert!(genesis.technical_committee.members.is_empty());
}

#[test]
fn staked_accounts_are_funded_when_listed() {
    let genesis = sample();
    for entry in genesis.session.keys.iter() {
        assert!(genesis.balances.get(&entry.0).unwrap() > 0);
        assert!(genesis.balances.get(&entry.1).unwrap() > 0);
    }
    for staker in genesis.staking.stakers.iter() {
        assert!(genesis.balances.get(&staker.0).unwrap() > 0);
        assert!(genesis.balances.get(&staker.1).unwrap() > 0);
    }
    for stash in genesis.staking.invulnerables.iter() {
        assert!(genesis.balances.get(stash).unwrap() > 0);
    }
}

#[test]
fn repeated_account_has_one_balance_and_two_indices() {
    let (a, b) = (id(1), id(2));
    let genesis = testnet_genesis(vec![], vec![], a, vec![a, b, a], false);
    assert_eq!(genesis.balances.len(), 2);
    assert_eq!(genesis.balances.entry(0), (a, ENDOWMENT));
    assert_eq!(genesis.balances.entry(1), (b, ENDOWMENT));
    assert_eq!(genesis.indices.indices, vec![(0, a), (1, b), (2, a)]);
}

#[test]
fn administrator_is_not_funded_unless_listed() {
    let genesis = testnet_genesis(vec![], vec![], id(1), vec![id(2)], false);
    assert_eq!(genesis.sudo.key, id(1));
    assert_eq!(genesis.balances.get(&id(1)), None);
}

#[test]
fn diagnostic_flag_does_not_change_the_state() {
    let quiet = testnet_genesis(vec![1], vec![validator(10)], id(11), vec![id(10), id(11)], false);
    let loud = testnet_genesis(vec![1], vec![validator(10)], id(11), vec![id(10), id(11)], true);
    assert_eq!(quiet, loud);
}

#[test]
fn assembling_twice_gives_the_same_state() {
    assert_eq!(sample(), sample());
    assert_eq!(format!("{:?}", sample()), format!("{:?}", sample()));
}
