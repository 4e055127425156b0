use chain_genesis::{
    authority_keys_from_seed, development_config, get_account_id_from_seed, load_spec, ChainType,
    KeyRole, SpecSource, StakerStatus, ENDOWMENT, INITIAL_STAKING,
};

#[test]
fn dev_selects_the_development_profile() {
    assert_eq!(load_spec("dev"), SpecSource::Development);
}

#[test]
fn anything_else_is_a_file_path() {
    assert_eq!(load_spec("chains/local.json"), SpecSource::File("chains/local.json".to_string()));
    assert_eq!(load_spec("Dev"), SpecSource::File("Dev".to_string()));
    assert_eq!(load_spec("dev "), SpecSource::File("dev ".to_string()));
    assert_eq!(load_spec("development"), SpecSource::File("development".to_string()));
    assert_eq!(load_spec(""), SpecSource::File(String::new()));
}

#[test]
fn development_chain_is_named_and_typed() {
    let spec = development_config(vec![1, 2, 3]).unwrap();
    assert_eq!(spec.name, "Development");
    assert_eq!(spec.id, "dev");
    assert_eq!(spec.chain_type, ChainType::Development);
    assert!(spec.boot_nodes.is_empty());
    assert_eq!(spec.protocol_id, None);
    assert_eq!(spec.genesis.system.code, vec![1, 2, 3]);
}

#[test]
fn development_profile_has_alice_as_sole_authority_and_administrator() {
    let alice = get_account_id_from_seed("Alice", KeyRole::Controller);
    let alice_stash = get_account_id_from_seed("Alice", KeyRole::Stash);
    let bob = get_account_id_from_seed("Bob", KeyRole::Controller);
    let bob_stash = get_account_id_from_seed("Bob", KeyRole::Stash);
    let keys = authority_keys_from_seed("Alice");
    let genesis = development_config(vec![]).unwrap().genesis;

    assert_eq!(genesis.staking.validator_count, 2);
    assert_eq!(genesis.staking.minimum_validator_count, 1);
    assert_eq!(
        genesis.staking.stakers,
        vec![(alice_stash, alice, INITIAL_STAKING, StakerStatus::Validator)]
    );
    assert_eq!(genesis.staking.invulnerables, vec![alice_stash]);
    assert_eq!(genesis.sudo.key, alice);
    assert_eq!(genesis.technical_membership.members, vec![alice]);
    assert_eq!(genesis.session.keys.len(), 1);
    assert_eq!(genesis.session.keys[0].0, alice);
    assert_eq!(genesis.session.keys[0].1, alice);
    assert_eq!(genesis.session.keys[0].2.grandpa, keys.2);
    assert_eq!(genesis.session.keys[0].2.babe, keys.3);
    assert_eq!(
        genesis.indices.indices,
        vec![(0, alice), (1, bob), (2, alice_stash), (3, bob_stash)]
    );
    assert_eq!(genesis.balances.len(), 4);
    assert_eq!(genesis.balances.entry(0), (alice, ENDOWMENT));
    assert_eq!(genesis.balances.entry(1), (bob, ENDOWMENT));
    assert_eq!(genesis.balances.entry(2), (alice_stash, ENDOWMENT));
    assert_eq!(genesis.balances.entry(3), (bob_stash, ENDOWMENT));
}

#[test]
fn development_profile_funds_every_staked_account() {
    let genesis = development_config(vec![]).unwrap().genesis;
    for entry in genesis.session.keys.iter() {
        assert!(genesis.balances.get(&entry.0).unwrap() > 0);
        assert!(genesis.balances.get(&entry.1).unwrap() > 0);
    }
    for staker in genesis.staking.stakers.iter() {
        assert!(genesis.balances.get(&staker.0).unwrap() > 0);
        assert!(genesis.balances.get(&staker.1).unwrap() > 0);
    }
    for stash in genesis.staking.invulnerables.iter() {
        assert!(genesis.balances.get(stash).unwrap() > 0);
    }
}

#[test]
fn development_profile_wants_twice_the_required_validators() {
    let staking = development_config(vec![]).unwrap().genesis.staking;
    assert_eq!(staking.validator_count, 2 * staking.minimum_validator_count);
}

#[test]
fn development_profile_is_the_same_every_time() {
    let first = development_config(vec![7; 64]).unwrap();
    let second = development_config(vec![7; 64]).unwrap();
    assert_eq!(first, second);
    assert_eq!(format!("{:?}", first), format!("{:?}", second));
}
