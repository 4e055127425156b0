//! The genesis assembler: from the identities of the first validators, the
//! administrative account and the accounts to fund, to the initial state of
//! every module.

use crate::account::{AccountId, PublicKey};
use crate::balances::{balance_of, endowment, holders, lemma_endowment_step, BalancesConfig};
use crate::balances::{lemma_endowment_balances, lemma_endowment_holders};
use crate::keys::{identity_of, AuthorityKeys, ParticipantIdentity};
use vstd::prelude::*;

verus! {

/// The balance that every funded account starts with.
pub const ENDOWMENT: u128 = 1_152_921_504_606_846_976u128;

/// The amount that every initial validator has bonded.
pub const INITIAL_STAKING: u128 = 1_000_000_000_000_000_000u128;

/// The share of a slash that goes to its reporters, in percent.
pub const SLASH_REWARD_PERCENT: u32 = 10u32;

/// A fraction in parts per billion.
#[derive(Clone, Copy, Debug, PartialEq, Eq, Structural)]
pub struct Perbill {
    /// The number of billionths.
    pub parts: u32,
}

/// The billionths that make up a number of percent; more than a hundred
/// percent count as a hundred.
pub open spec fn parts_of_percent(percent: int) -> int {
    if percent > 100 {
        1_000_000_000
    } else {
        percent * 10_000_000
    }
}

/// Trusted: `sp_runtime::Perbill::from_percent` followed by
/// `Perbill::deconstruct`. The contract claims that the percentage is capped
/// at a hundred and scaled to billionths.
#[verifier::external_body]
fn perbill_parts_from_percent(percent: u32) -> (parts: u32)
    ensures
        parts == parts_of_percent(percent as int),
{
    sp_runtime::Perbill::from_percent(percent).deconstruct()
}

impl Perbill {
    /// The fraction that a number of percent stands for.
    pub fn from_percent(percent: u32) -> (fraction: Perbill)
        ensures
            fraction.parts == parts_of_percent(percent as int),
    {
        Perbill { parts: perbill_parts_from_percent(percent) }
    }
}

/// The runtime code that the chain starts to execute.
#[derive(Clone, Debug, PartialEq, Eq)]
pub struct SystemConfig {
    pub code: Vec<u8>,
}

/// The short index of every funded account.
#[derive(Clone, Debug, PartialEq, Eq)]
pub struct IndicesConfig {
    pub indices: Vec<(u32, AccountId)>,
}

/// The consensus keys that a validator announces for its sessions.
#[derive(Clone, Copy, Debug, PartialEq, Eq)]
pub struct SessionKeys {
    pub grandpa: PublicKey,
    pub babe: PublicKey,
}

/// The session keys of every initial validator: the account that owns the
/// keys, the validator they speak for, and the keys.
#[derive(Clone, Debug, PartialEq, Eq)]
pub struct SessionConfig {
    pub keys: Vec<(AccountId, AccountId, SessionKeys)>,
}

/// What a staker does with its bond.
#[derive(Clone, Copy, Debug, PartialEq, Eq, Structural)]
pub enum StakerStatus {
    /// Bonded, but neither validating nor nominating.
    Idle,
    /// Validating.
    Validator,
}

/// The staking state: how many validators the chain wants, and who has
/// bonded what.
#[derive(Clone, Debug, PartialEq, Eq)]
pub struct StakingConfig {
    pub validator_count: u32,
    pub minimum_validator_count: u32,
    pub stakers: Vec<(AccountId, AccountId, u128, StakerStatus)>,
    pub invulnerables: Vec<AccountId>,
    pub slash_reward_fraction: Perbill,
}

/// The account with root authority.
#[derive(Clone, Copy, Debug, PartialEq, Eq)]
pub struct SudoConfig {
    pub key: AccountId,
}

/// The block-production authorities with their weights.
#[derive(Clone, Debug, PartialEq, Eq)]
pub struct BabeConfig {
    pub authorities: Vec<(PublicKey, u64)>,
}

/// The finality authorities with their weights.
#[derive(Clone, Debug, PartialEq, Eq)]
pub struct GrandpaConfig {
    pub authorities: Vec<(PublicKey, u64)>,
}

/// The members of a collective.
#[derive(Clone, Debug, PartialEq, Eq)]
pub struct CollectiveConfig {
    pub members: Vec<AccountId>,
}

/// The members of a membership set.
#[derive(Clone, Debug, PartialEq, Eq)]
pub struct MembershipConfig {
    pub members: Vec<AccountId>,
}

/// The treasury, which starts without any state of its own.
#[derive(Clone, Copy, Debug, PartialEq, Eq)]
pub struct TreasuryConfig {}

/// The initial state of every module.
#[derive(Clone, Debug, PartialEq, Eq)]
pub struct GenesisConfig {
    pub system: SystemConfig,
    pub balances: BalancesConfig,
    pub indices: IndicesConfig,
    pub session: SessionConfig,
    pub staking: StakingConfig,
    pub sudo: SudoConfig,
    pub babe: BabeConfig,
    pub grandpa: GrandpaConfig,
    pub council: CollectiveConfig,
    pub technical_committee: CollectiveConfig,
    pub technical_membership: MembershipConfig,
    pub treasury: TreasuryConfig,
}

/// A validator's session keys, by their bytes.
pub struct SessionKeysView {
    pub grandpa: Seq<u8>,
    pub babe: Seq<u8>,
}

/// The staking state over account ids as byte strings and unbounded counts.
#[verifier::ext_equal]
pub struct StakingView {
    pub validator_count: int,
    pub minimum_validator_count: int,
    pub stakers: Seq<(Seq<u8>, Seq<u8>, u128, StakerStatus)>,
    pub invulnerables: Seq<Seq<u8>>,
    pub slash_reward_parts: int,
}

/// The genesis state over account ids and keys as byte strings.
#[verifier::ext_equal]
pub struct GenesisView {
    pub code: Seq<u8>,
    pub balances: Seq<(Seq<u8>, u128)>,
    pub indices: Seq<(int, Seq<u8>)>,
    pub session_keys: Seq<(Seq<u8>, Seq<u8>, SessionKeysView)>,
    pub staking: StakingView,
    pub sudo_key: Seq<u8>,
    pub babe_authorities: Seq<(Seq<u8>, u64)>,
    pub grandpa_authorities: Seq<(Seq<u8>, u64)>,
    pub council: Seq<Seq<u8>>,
    pub technical_committee: Seq<Seq<u8>>,
    pub technical_membership: Seq<Seq<u8>>,
}

/// The byte strings of a list of account ids.
pub open spec fn account_ids(accounts: Seq<AccountId>) -> Seq<Seq<u8>> {
    accounts.map_values(|account: AccountId| account@)
}

/// The identities of a list of participants' keys.
pub open spec fn identities_of(authorities: Seq<AuthorityKeys>) -> Seq<ParticipantIdentity> {
    authorities.map_values(|keys: AuthorityKeys| identity_of(keys))
}

impl View for SessionKeys {
    type V = SessionKeysView;

    open spec fn view(&self) -> SessionKeysView {
        SessionKeysView { grandpa: self.grandpa@, babe: self.babe@ }
    }
}

/// An index entry over the account's bytes.
pub open spec fn index_view(entry: (u32, AccountId)) -> (int, Seq<u8>) {
    (entry.0 as int, entry.1@)
}

/// A session entry over the accounts' and keys' bytes.
pub open spec fn session_view(entry: (AccountId, AccountId, SessionKeys)) -> (
    Seq<u8>,
    Seq<u8>,
    SessionKeysView,
) {
    (entry.0@, entry.1@, entry.2@)
}

/// A staker entry over the accounts' bytes.
pub open spec fn staker_view(entry: (AccountId, AccountId, u128, StakerStatus)) -> (
    Seq<u8>,
    Seq<u8>,
    u128,
    StakerStatus,
) {
    (entry.0@, entry.1@, entry.2, entry.3)
}

/// A weighted authority over the key's bytes.
pub open spec fn authority_view(entry: (PublicKey, u64)) -> (Seq<u8>, u64) {
    (entry.0@, entry.1)
}

impl View for StakingConfig {
    type V = StakingView;

    open spec fn view(&self) -> StakingView {
        StakingView {
            validator_count: self.validator_count as int,
            minimum_validator_count: self.minimum_validator_count as int,
            stakers: self.stakers@.map_values(
                |entry: (AccountId, AccountId, u128, StakerStatus)| staker_view(entry),
            ),
            invulnerables: account_ids(self.invulnerables@),
            slash_reward_parts: self.slash_reward_fraction.parts as int,
        }
    }
}

impl View for GenesisConfig {
    type V = GenesisView;

    open spec fn view(&self) -> GenesisView {
        GenesisView {
            code: self.system.code@,
            balances: self.balances@,
            indices: self.indices.indices@.map_values(|entry: (u32, AccountId)| index_view(entry)),
            session_keys: self.session.keys@.map_values(
                |entry: (AccountId, AccountId, SessionKeys)| session_view(entry),
            ),
            staking: self.staking@,
            sudo_key: self.sudo.key@,
            babe_authorities: self.babe.authorities@.map_values(
                |entry: (PublicKey, u64)| authority_view(entry),
            ),
            grandpa_authorities: self.grandpa.authorities@.map_values(
                |entry: (PublicKey, u64)| authority_view(entry),
            ),
            council: account_ids(self.council.members@),
            technical_committee: account_ids(self.technical_committee.members@),
            technical_membership: account_ids(self.technical_membership.members@),
        }
    }
}

/// The index state of a list of funded accounts: each account under its
/// position in the list, counted from zero.
pub open spec fn enumerated(accounts: Seq<Seq<u8>>) -> Seq<(int, Seq<u8>)> {
    Seq::new(accounts.len(), |at: int| (at, accounts[at]))
}

/// The session entry of a validator: its controller account, as owner and as
/// validator, with the two consensus keys.
pub open spec fn session_entry(identity: ParticipantIdentity) -> (
    Seq<u8>,
    Seq<u8>,
    SessionKeysView,
) {
    (
        identity.controller,
        identity.controller,
        SessionKeysView { grandpa: identity.grandpa, babe: identity.babe },
    )
}

/// The staker entry of a validator: its stash bonds the fixed amount under
/// its controller, as a validator.
pub open spec fn staker_entry(identity: ParticipantIdentity) -> (
    Seq<u8>,
    Seq<u8>,
    u128,
    StakerStatus,
) {
    (identity.stash, identity.controller, INITIAL_STAKING, StakerStatus::Validator)
}

/// The staking state for a list of initial validators.
pub open spec fn assembled_staking(identities: Seq<ParticipantIdentity>) -> StakingView {
    StakingView {
        validator_count: 2 * (identities.len() as int),
        minimum_validator_count: identities.len() as int,
        stakers: identities.map_values(|identity: ParticipantIdentity| staker_entry(identity)),
        invulnerables: identities.map_values(|identity: ParticipantIdentity| identity.stash),
        slash_reward_parts: parts_of_percent(SLASH_REWARD_PERCENT as int),
    }
}

/// The genesis state for the given runtime code, initial validators,
/// administrative account and funded accounts.
pub open spec fn assembled_genesis(
    code: Seq<u8>,
    identities: Seq<ParticipantIdentity>,
    root: Seq<u8>,
    endowed: Seq<Seq<u8>>,
) -> GenesisView {
    GenesisView {
        code,
        balances: endowment(endowed, ENDOWMENT),
        indices: enumerated(endowed),
        session_keys: identities.map_values(
            |identity: ParticipantIdentity| session_entry(identity),
        ),
        staking: assembled_staking(identities),
        sudo_key: root,
        babe_authorities: Seq::empty(),
        grandpa_authorities: Seq::empty(),
        council: Seq::empty(),
        technical_committee: Seq::empty(),
        technical_membership: seq![root],
    }
}

/// Puts a validator's two consensus keys together.
pub fn session_keys(grandpa: PublicKey, babe: PublicKey) -> (keys: SessionKeys)
    ensures
        keys == (SessionKeys { grandpa, babe }),
{
    SessionKeys { grandpa, babe }
}

/// Credits every listed account with the endowment.
fn endowed_balances(endowed_accounts: &Vec<AccountId>) -> (balances: BalancesConfig)
    ensures
        balances@ == endowment(account_ids(endowed_accounts@), ENDOWMENT),
        balances.wf(),
{
    let ghost endowed = account_ids(endowed_accounts@);
    let mut balances = BalancesConfig::new();
    let mut at: usize = 0;
    assert(endowed.take(0) =~= Seq::<Seq<u8>>::empty());
    while at < endowed_accounts.len()
        invariant
            at <= endowed_accounts.len(),
            endowed == account_ids(endowed_accounts@),
            balances@ == endowment(endowed.take(at as int), ENDOWMENT),
            balances.wf(),
        decreases endowed_accounts.len() - at,
    {
        proof {
            let next = endowed.take(at + 1);
            assert(next.drop_last() =~= endowed.take(at as int));
            assert(next.last() == endowed_accounts@[at as int]@);
            lemma_endowment_step(next, ENDOWMENT);
        }
        balances.insert(endowed_accounts[at], ENDOWMENT);
        at += 1;
    }
    assert(endowed.take(at as int) =~= endowed);
    balances
}

/// Numbers the listed accounts from zero.
fn enumerated_indices(endowed_accounts: &Vec<AccountId>) -> (indices: Vec<(u32, AccountId)>)
    requires
        endowed_accounts.len() <= 0x1_0000_0000,
    ensures
        indices@.map_values(|entry: (u32, AccountId)| index_view(entry)) == enumerated(
            account_ids(endowed_accounts@),
        ),
{
    let mut indices: Vec<(u32, AccountId)> = Vec::new();
    let mut at: usize = 0;
    while at < endowed_accounts.len()
        invariant
            at <= endowed_accounts.len(),
            endowed_accounts.len() <= 0x1_0000_0000,
            indices.len() == at,
            forall|i: int| 0 <= i < at ==> index_view(#[trigger] indices@[i]) == (i, endowed_accounts@[i]@),
        decreases endowed_accounts.len() - at,
    {
        indices.push((at as u32, endowed_accounts[at]));
        at += 1;
    }
    assert(indices@.map_values(|entry: (u32, AccountId)| index_view(entry)) =~= enumerated(
        account_ids(endowed_accounts@),
    ));
    indices
}

/// The session entry of every initial validator.
fn session_entries(initial_authorities: &Vec<AuthorityKeys>) -> (keys: Vec<
    (AccountId, AccountId, SessionKeys),
>)
    ensures
        keys@.map_values(|entry: (AccountId, AccountId, SessionKeys)| session_view(entry))
            == identities_of(initial_authorities@).map_values(
            |identity: ParticipantIdentity| session_entry(identity),
        ),
{
    let mut keys: Vec<(AccountId, AccountId, SessionKeys)> = Vec::new();
    let mut at: usize = 0;
    while at < initial_authorities.len()
        invariant
            at <= initial_authorities.len(),
            keys.len() == at,
            forall|i: int| 0 <= i < at ==> session_view(#[trigger] keys@[i]) == session_entry(
                identity_of(initial_authorities@[i]),
            ),
        decreases initial_authorities.len() - at,
    {
        let authority = initial_authorities[at];
        keys.push((authority.1, authority.1, session_keys(authority.2, authority.3)));
        at += 1;
    }
    assert(keys@.map_values(|entry: (AccountId, AccountId, SessionKeys)| session_view(entry))
        =~= identities_of(initial_authorities@).map_values(
        |identity: ParticipantIdentity| session_entry(identity),
    ));
    keys
}

/// The staker entry of every initial validator.
fn staker_entries(initial_authorities: &Vec<AuthorityKeys>) -> (stakers: Vec<
    (AccountId, AccountId, u128, StakerStatus),
>)
    ensures
        stakers@.map_values(|entry: (AccountId, AccountId, u128, StakerStatus)| staker_view(entry))
            == identities_of(initial_authorities@).map_values(
            |identity: ParticipantIdentity| staker_entry(identity),
        ),
{
    let mut stakers: Vec<(AccountId, AccountId, u128, StakerStatus)> = Vec::new();
    let mut at: usize = 0;
    while at < initial_authorities.len()
        invariant
            at <= initial_authorities.len(),
            stakers.len() == at,
            forall|i: int| 0 <= i < at ==> staker_view(#[trigger] stakers@[i]) == staker_entry(
                identity_of(initial_authorities@[i]),
            ),
        decreases initial_authorities.len() - at,
    {
        let authority = initial_authorities[at];
        stakers.push((authority.0, authority.1, INITIAL_STAKING, StakerStatus::Validator));
        at += 1;
    }
    assert(stakers@.map_values(
        |entry: (AccountId, AccountId, u128, StakerStatus)| staker_view(entry),
    ) =~= identities_of(initial_authorities@).map_values(
        |identity: ParticipantIdentity| staker_entry(identity),
    ));
    stakers
}

/// The stash account of every initial validator.
fn stash_accounts(initial_authorities: &Vec<AuthorityKeys>) -> (stashes: Vec<AccountId>)
    ensures
        account_ids(stashes@) == identities_of(initial_authorities@).map_values(
            |identity: ParticipantIdentity| identity.stash,
        ),
{
    let mut stashes: Vec<AccountId> = Vec::new();
    let mut at: usize = 0;
    while at < initial_authorities.len()
        invariant
            at <= initial_authorities.len(),
            stashes.len() == at,
            forall|i: int| 0 <= i < at ==> (#[trigger] stashes@[i])@ == initial_authorities@[i].0@,
        decreases initial_authorities.len() - at,
    {
        stashes.push(initial_authorities[at].0);
        at += 1;
    }
    assert(account_ids(stashes@) =~= identities_of(initial_authorities@).map_values(
        |identity: ParticipantIdentity| identity.stash,
    ));
    stashes
}

/// The staking state for the initial validators: twice as many validators
/// wanted as there are, at least as many as there are required, every one of
/// them bonded and exempt from slashing.
fn staking_config(initial_authorities: &Vec<AuthorityKeys>) -> (staking: StakingConfig)
    requires
        2 * initial_authorities.len() <= u32::MAX,
    ensures
        staking@ == assembled_staking(identities_of(initial_authorities@)),
{
    let minimum_validator_count = initial_authorities.len() as u32;
    let staking = StakingConfig {
        validator_count: minimum_validator_count * 2,
        minimum_validator_count,
        stakers: staker_entries(initial_authorities),
        invulnerables: stash_accounts(initial_authorities),
        slash_reward_fraction: Perbill::from_percent(SLASH_REWARD_PERCENT),
    };
    assert(staking@ =~= assembled_staking(identities_of(initial_authorities@)));
    staking
}

/// Assembles the initial state of every module.
///
/// `_enable_println` is kept for callers that print diagnostics; it does not
/// change the state.
pub fn testnet_genesis(
    code: Vec<u8>,
    initial_authorities: Vec<AuthorityKeys>,
    root_key: AccountId,
    endowed_accounts: Vec<AccountId>,
    _enable_println: bool,
) -> (genesis: GenesisConfig)
    requires
        2 * initial_authorities.len() <= u32::MAX,
        endowed_accounts.len() <= 0x1_0000_0000,
    ensures
        genesis@ == assembled_genesis(
            code@,
            identities_of(initial_authorities@),
            root_key@,
            account_ids(endowed_accounts@),
        ),
        genesis.balances.wf(),
{
    let mut members: Vec<AccountId> = Vec::new();
    members.push(root_key);
    let genesis = GenesisConfig {
        system: SystemConfig { code },
        balances: endowed_balances(&endowed_accounts),
        indices: IndicesConfig { indices: enumerated_indices(&endowed_accounts) },
        session: SessionConfig { keys: session_entries(&initial_authorities) },
        staking: staking_config(&initial_authorities),
        sudo: SudoConfig { key: root_key },
        babe: BabeConfig { authorities: Vec::new() },
        grandpa: GrandpaConfig { authorities: Vec::new() },
        council: CollectiveConfig { members: Vec::new() },
        technical_committee: CollectiveConfig { members: Vec::new() },
        technical_membership: MembershipConfig { members },
        treasury: TreasuryConfig {  },
    };
    assert(genesis@ =~= assembled_genesis(
        code@,
        identities_of(initial_authorities@),
        root_key@,
        account_ids(endowed_accounts@),
    ));
    genesis
}

/// Whether the genesis state gives an account a balance above zero.
pub open spec fn funded(genesis: GenesisView, who: Seq<u8>) -> bool {
    balance_of(genesis.balances, who) matches Some(balance) && balance > 0
}

/// Whether every account that the session and the staking state refer to is
/// funded.
pub open spec fn cross_referenced(genesis: GenesisView) -> bool {
    &&& forall|i: int|
        0 <= i < genesis.session_keys.len() ==> funded(genesis, (#[trigger] genesis.session_keys[i]).0)
            && funded(genesis, genesis.session_keys[i].1)
    &&& forall|i: int|
        0 <= i < genesis.staking.stakers.len() ==> funded(
            genesis,
            (#[trigger] genesis.staking.stakers[i]).0,
        ) && funded(genesis, genesis.staking.stakers[i].1)
    &&& forall|i: int|
        0 <= i < genesis.staking.invulnerables.len() ==> funded(
            genesis,
            #[trigger] genesis.staking.invulnerables[i],
        )
}

/// In an assembled genesis state the listed accounts, and no others, hold a
/// balance, which is the endowment; no account has two balance entries; and
/// where no account is listed twice the entries follow the list.
pub proof fn lemma_assembled_balances(
    code: Seq<u8>,
    identities: Seq<ParticipantIdentity>,
    root: Seq<u8>,
    endowed: Seq<Seq<u8>>,
)
    ensures
        forall|who: Seq<u8>|
            #![trigger balance_of(assembled_genesis(code, identities, root, endowed).balances, who)]
            balance_of(assembled_genesis(code, identities, root, endowed).balances, who) == if endowed.contains(
                who,
            ) {
                Some(ENDOWMENT)
            } else {
                None::<u128>
            },
        holders(assembled_genesis(code, identities, root, endowed).balances).no_duplicates(),
        endowed.no_duplicates() ==> holders(
            assembled_genesis(code, identities, root, endowed).balances,
        ) == endowed,
{
    assert forall|who: Seq<u8>|
        #![trigger balance_of(assembled_genesis(code, identities, root, endowed).balances, who)]
        balance_of(assembled_genesis(code, identities, root, endowed).balances, who) == if endowed.contains(
            who,
        ) {
            Some(ENDOWMENT)
        } else {
            None::<u128>
        } by {
        lemma_endowment_balances(endowed, ENDOWMENT, who);
    }
    lemma_endowment_holders(endowed, ENDOWMENT);
}

/// In an assembled genesis state the index state numbers the listed accounts
/// from zero in the order of the list, a repeated account under each of its
/// positions; where no account is listed twice no account has two indices.
pub proof fn lemma_index_enumeration(
    code: Seq<u8>,
    identities: Seq<ParticipantIdentity>,
    root: Seq<u8>,
    endowed: Seq<Seq<u8>>,
)
    ensures
        assembled_genesis(code, identities, root, endowed).indices.len() == endowed.len(),
        forall|at: int|
            0 <= at < endowed.len() ==> #[trigger] assembled_genesis(
                code,
                identities,
                root,
                endowed,
            ).indices[at] == (at, endowed[at]),
        endowed.no_duplicates() ==> forall|i: int, j: int|
            0 <= i < endowed.len() && 0 <= j < endowed.len() && i != j ==> (#[trigger] assembled_genesis(
                code,
                identities,
                root,
                endowed,
            ).indices[i]).1 != (#[trigger] assembled_genesis(code, identities, root, endowed).indices[j]).1,
{
}

/// In an assembled genesis state twice as many validators are wanted as are
/// required, and as many are required as there are initial validators; each
/// of them has one staker entry with the fixed bond.
pub proof fn lemma_staking_counts(
    code: Seq<u8>,
    identities: Seq<ParticipantIdentity>,
    root: Seq<u8>,
    endowed: Seq<Seq<u8>>,
)
    ensures
        ({
            let staking = assembled_genesis(code, identities, root, endowed).staking;
            &&& staking.validator_count == 2 * staking.minimum_validator_count
            &&& staking.validator_count >= staking.minimum_validator_count >= identities.len()
            &&& staking.stakers.len() == identities.len()
            &&& staking.invulnerables.len() == identities.len()
            &&& forall|i: int|
                0 <= i < identities.len() ==> (#[trigger] staking.stakers[i]).2 == INITIAL_STAKING
        }),
{
}

/// In an assembled genesis state the administrative account has root
/// authority and is the only member of the technical membership.
pub proof fn lemma_administrative_membership(
    code: Seq<u8>,
    identities: Seq<ParticipantIdentity>,
    root: Seq<u8>,
    endowed: Seq<Seq<u8>>,
)
    ensures
        assembled_genesis(code, identities, root, endowed).sudo_key == root,
        assembled_genesis(code, identities, root, endowed).technical_membership.len() == 1,
        assembled_genesis(code, identities, root, endowed).technical_membership[0] == root,
{
}

/// Where the stash and the controller account of every initial validator are
/// among the funded accounts, every account that the session and the staking
/// state of the assembled genesis refer to holds a balance above zero.
pub proof fn lemma_cross_reference_integrity(
    code: Seq<u8>,
    identities: Seq<ParticipantIdentity>,
    root: Seq<u8>,
    endowed: Seq<Seq<u8>>,
)
    requires
        forall|i: int|
            0 <= i < identities.len() ==> endowed.contains((#[trigger] identities[i]).stash)
                && endowed.contains(identities[i].controller),
    ensures
        cross_referenced(assembled_genesis(code, identities, root, endowed)),
{
    let genesis = assembled_genesis(code, identities, root, endowed);
    assert forall|who: Seq<u8>| endowed.contains(who) implies funded(genesis, who) by {
        lemma_endowment_balances(endowed, ENDOWMENT, who);
    }
    assert forall|i: int| 0 <= i < genesis.session_keys.len() implies funded(
        genesis,
        (#[trigger] genesis.session_keys[i]).0,
    ) && funded(genesis, genesis.session_keys[i].1) by {
        assert(genesis.session_keys[i] == session_entry(identities[i]));
    }
    assert forall|i: int| 0 <= i < genesis.staking.stakers.len() implies funded(
        genesis,
        (#[trigger] genesis.staking.stakers[i]).0,
    ) && funded(genesis, genesis.staking.stakers[i].1) by {
        assert(genesis.staking.stakers[i] == staker_entry(identities[i]));
    }
    assert forall|i: int| 0 <= i < genesis.staking.invulnerables.len() implies funded(
        genesis,
        #[trigger] genesis.staking.invulnerables[i],
    ) by {
        assert(genesis.staking.invulnerables[i] == identities[i].stash);
    }
}

} // verus!
