use chain_genesis::{
    authority_keys_from_seed, can_derive, can_derive_identity, get_account_id_from_seed,
    get_from_seed, try_authority_keys_from_seed, try_get_account_id_from_seed, try_get_from_seed,
    KeyRole, KeyScheme, PublicKey,
};

fn key_hex(bytes: &[u8; 32]) -> String {
    let mut out = String::new();
    for b in bytes.iter() {
        out.push_str(&format!("{:02x}", b));
    }
    out
}

const ALICE: &str = "d43593c715fdd31c61141abd04a99fd6822c8558854ccde39a5684e7a56da27d";
const ALICE_STASH: &str = "be5ddb1579b72e84524fc29e78609e3caf42e85aa118ebfe0b0ad404b5bdd25f";
const ALICE_ED25519: &str = "88dc3417d5058ec4b4503e0c12ea1a0a89be200fe98922423d4334014fa6b0ee";
const BOB: &str = "8eaf04151687736326c9fea17e25fc5287613693c912909cb226aa4794f26a48";
const BOB_STASH: &str = "fe65717dad0447d715f660a0a58411de509b42e6efb8375f562f58a554d5860e";

#[test]
fn alice_controller_key_is_the_well_known_one() {
    let key = get_from_seed("Alice", KeyRole::Controller);
    assert_eq!(key_hex(&key.bytes), ALICE);
}

#[test]
fn alice_stash_key_takes_the_stash_junction() {
    let key = get_from_seed("Alice", KeyRole::Stash);
    assert_eq!(key_hex(&key.bytes), ALICE_STASH);
}

#[test]
fn alice_finality_key_is_an_ed25519_key() {
    let key = get_from_seed("Alice", KeyRole::Finality);
    assert_eq!(key_hex(&key.bytes), ALICE_ED25519);
}

#[test]
fn alice_block_production_key_is_an_sr25519_key() {
    let key = get_from_seed("Alice", KeyRole::BlockProduction);
    assert_eq!(key_hex(&key.bytes), ALICE);
}

#[test]
fn bob_accounts_are_the_well_known_ones() {
    let controller = get_account_id_from_seed("Bob", KeyRole::Controller);
    let stash = get_account_id_from_seed("Bob", KeyRole::Stash);
    assert_eq!(key_hex(&controller.bytes), BOB);
    assert_eq!(key_hex(&stash.bytes), BOB_STASH);
}

#[test]
fn account_id_has_the_bytes_of_the_public_key() {
    for role in [
        KeyRole::Controller,
        KeyRole::Stash,
        KeyRole::Finality,
        KeyRole::BlockProduction,
    ] {
        let key = get_from_seed("Alice", role);
        let account = get_account_id_from_seed("Alice", role);
        assert_eq!(account.bytes, key.bytes);
    }
}

#[test]
fn into_account_keeps_the_bytes_under_both_schemes() {
    let mut bytes = [0u8; 32];
    for (i, b) in bytes.iter_mut().enumerate() {
        *b = (i * 7 + 1) as u8;
    }
    let key = PublicKey { bytes };
    assert_eq!(key.into_account(KeyScheme::Sr25519).bytes, bytes);
    assert_eq!(key.into_account(KeyScheme::Ed25519).bytes, bytes);
}

#[test]
fn from_derivation_wraps_the_outcome() {
    assert_eq!(PublicKey::from_derivation(None), None);
    let bytes = [9u8; 32];
    assert_eq!(PublicKey::from_derivation(Some(bytes)), Some(PublicKey { bytes }));
}

#[test]
fn roles_are_bound_to_their_schemes() {
    assert_eq!(KeyRole::Controller.scheme(), KeyScheme::Sr25519);
    assert_eq!(KeyRole::Stash.scheme(), KeyScheme::Sr25519);
    assert_eq!(KeyRole::Finality.scheme(), KeyScheme::Ed25519);
    assert_eq!(KeyRole::BlockProduction.scheme(), KeyScheme::Sr25519);
}

#[test]
fn derivation_is_repeatable() {
    for role in [
        KeyRole::Controller,
        KeyRole::Stash,
        KeyRole::Finality,
        KeyRole::BlockProduction,
    ] {
        for seed in ["Alice", "Bob", "Charlie", "a seed with spaces"] {
            assert_eq!(get_from_seed(seed, role), get_from_seed(seed, role));
            assert_eq!(try_get_from_seed(seed, role), Some(get_from_seed(seed, role)));
        }
    }
}

#[test]
fn distinct_seeds_give_distinct_accounts() {
    let seeds = ["Alice", "Bob", "Charlie", "Dave", "Eve", "Ferdie"];
    for role in [KeyRole::Controller, KeyRole::Stash] {
        for (i, a) in seeds.iter().enumerate() {
            for b in seeds.iter().skip(i + 1) {
                assert_ne!(
                    get_account_id_from_seed(a, role),
                    get_account_id_from_seed(b, role)
                );
            }
        }
    }
}

#[test]
fn numeric_seeds_that_differ_in_leading_zeros_share_a_key() {
    let one = get_account_id_from_seed("1", KeyRole::Controller);
    let padded = get_account_id_from_seed("01", KeyRole::Controller);
    assert_eq!(one, padded);
}

#[test]
fn authority_keys_are_stash_controller_finality_block_production() {
    let keys = authority_keys_from_seed("Alice");
    assert_eq!(key_hex(&keys.0.bytes), ALICE_STASH);
    assert_eq!(key_hex(&keys.1.bytes), ALICE);
    assert_eq!(key_hex(&keys.2.bytes), ALICE_ED25519);
    assert_eq!(key_hex(&keys.3.bytes), ALICE);
    assert_eq!(try_authority_keys_from_seed("Alice"), Some(keys));
}

#[test]
fn empty_seed_is_rejected() {
    assert!(!can_derive("", KeyRole::Controller));
    assert!(!can_derive("", KeyRole::Finality));
    assert!(!can_derive("", KeyRole::BlockProduction));
    assert_eq!(try_get_from_seed("", KeyRole::Controller), None);
    assert_eq!(try_get_account_id_from_seed("", KeyRole::Controller), None);
    assert!(!can_derive_identity(""));
    assert_eq!(try_authority_keys_from_seed(""), None);
}

#[test]
fn soft_junction_is_rejected_by_the_finality_scheme_only() {
    assert!(can_derive("Alice/soft", KeyRole::Controller));
    assert!(can_derive("Alice/soft", KeyRole::Stash));
    assert!(can_derive("Alice/soft", KeyRole::BlockProduction));
    assert!(!can_derive("Alice/soft", KeyRole::Finality));
    assert!(!can_derive_identity("Alice/soft"));
    assert_eq!(try_authority_keys_from_seed("Alice/soft"), None);
}

#[test]
fn seed_with_a_further_hard_junction_is_accepted() {
    let nested = get_account_id_from_seed("Alice//stash", KeyRole::Controller);
    assert_eq!(key_hex(&nested.bytes), ALICE_STASH);
}
