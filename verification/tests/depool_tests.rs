use depool::depool_v3;
use depool::get_depool_info;
use depool::get_participant_info;
use depool::invoke_readonly;
use depool::prepare_add_ordinary_stake;
use depool::prepare_withdraw_part;
use depool::Address;
use depool::ContractState;
use depool::DePoolContractState;
use depool::DePoolError;
use depool::DePoolInfo;
use depool::ExecutionOutput;
use depool::ExecutionSnapshot;
use depool::MapEntry;
use depool::NamedValue;
use depool::ParamType;
use depool::ParticipantInfo;
use depool::UintValue;
use depool::Value;

fn uint(size: u32, number: u128) -> Value {
    Value::Uint(UintValue { size, number })
}

fn addr(byte: u8) -> Address {
    Address { workchain: 0, account: [byte; 32] }
}

fn named(name: &str, value: Value) -> NamedValue {
    NamedValue { name: name.to_owned(), value }
}

fn stake_tuple_params() -> ParamType {
    ParamType::Tuple(Vec::new())
}

fn stake_tuple(remaining: u64, owner: Address) -> Value {
    Value::Tuple(vec![
        named("remainingAmount", uint(64, remaining as u128)),
        named("lastWithdrawalTime", uint(64, 1600000000)),
        named("withdrawalPeriod", uint(32, 86400)),
        named("withdrawalValue", uint(64, 10)),
        named("owner", Value::Address(owner)),
    ])
}

fn empty_stake_map() -> Value {
    Value::Mapping(ParamType::Uint(64), stake_tuple_params(), Vec::new())
}

fn participant_tokens() -> Vec<NamedValue> {
    vec![
        named("total", uint(64, 1000)),
        named("withdrawValue", uint(64, 0)),
        named("reinvest", Value::Bool(true)),
        named("reward", uint(64, 42)),
        named(
            "stakes",
            Value::Mapping(
                ParamType::Uint(64),
                ParamType::Uint(64),
                vec![MapEntry { key: "7".to_owned(), value: uint(64, 700) }],
            ),
        ),
        named("vestings", empty_stake_map()),
        named("locks", empty_stake_map()),
        named("vestingDonor", Value::Address(addr(3))),
        named("lockDonor", Value::Address(addr(4))),
    ]
}

fn depool_tokens() -> Vec<NamedValue> {
    vec![
        named("poolClosed", Value::Bool(false)),
        named("minStake", uint(64, 10_000_000_000)),
        named("validatorAssurance", uint(64, 100_000_000_000)),
        named("participantRewardFraction", uint(8, 70)),
        named("validatorRewardFraction", uint(8, 30)),
        named("balanceThreshold", uint(64, 5_000_000_000)),
        named("validatorWallet", Value::Address(addr(9))),
        named(
            "proxies",
            Value::Array(
                ParamType::Address,
                vec![Value::Address(addr(11)), Value::Address(addr(12))],
            ),
        ),
        named("stakeFee", uint(64, 500_000_000)),
        named("retOrReinvFee", uint(64, 400_000_000)),
        named("proxyFee", uint(64, 90_000_000)),
    ]
}

fn snapshot() -> ExecutionSnapshot {
    ExecutionSnapshot {
        account: vec![1, 2, 3],
        gen_utime: 1700000000,
        gen_lt: 40,
        last_transaction_lt: 39,
        last_transaction_hash: vec![0; 32],
    }
}

fn output_with(tokens: Option<Vec<NamedValue>>) -> ExecutionOutput {
    let result_code = if tokens.is_some() { 0 } else { 1 };
    ExecutionOutput { result_code, tokens }
}

#[test]
fn participant_tuple_with_empty_maps_decodes() {
    // Empty vesting and lock maps yield empty mappings, not an error.
    let info = ParticipantInfo::try_from(participant_tokens()).unwrap();
    assert_eq!(info.total, 1000);
    assert_eq!(info.withdraw_value, 0);
    assert!(info.reinvest);
    assert_eq!(info.reward, 42);
    assert_eq!(info.stakes.len(), 1);
    assert_eq!(info.stakes.get(7), Some(&700));
    assert!(info.vestings.is_empty());
    assert!(info.locks.is_empty());
    assert_eq!(info.vesting_donor, addr(3));
    assert_eq!(info.lock_donor, addr(4));
}

#[test]
fn participant_tuple_with_stakes_converts_them() {
    let mut tokens = participant_tokens();
    tokens[5] = named(
        "vestings",
        Value::Mapping(
            ParamType::Uint(64),
            stake_tuple_params(),
            vec![MapEntry { key: "2".to_owned(), value: stake_tuple(55, addr(8)) }],
        ),
    );
    let info = ParticipantInfo::try_from(tokens).unwrap();
    assert_eq!(info.vestings.len(), 1);
    let stake = info.vestings.get(2).unwrap();
    assert_eq!(stake.remaining_amount, 55);
    assert_eq!(stake.last_withdrawal_time, 1600000000);
    assert_eq!(stake.withdrawal_period, 86400);
    assert_eq!(stake.withdrawal_value, 10);
    assert_eq!(stake.owner, addr(8));
}

#[test]
fn participant_tuple_missing_field_is_rejected() {
    let mut tokens = participant_tokens();
    tokens.remove(3);
    tokens.push(named("extra", uint(64, 1)));
    assert!(matches!(
        ParticipantInfo::try_from(tokens),
        Err(DePoolError::InvalidAbi)
    ));
}

#[test]
fn participant_tuple_extra_field_is_rejected() {
    let mut tokens = participant_tokens();
    tokens.push(named("extra", uint(64, 1)));
    assert!(matches!(
        ParticipantInfo::try_from(tokens),
        Err(DePoolError::InvalidAbi)
    ));
}

#[test]
fn participant_tuple_width_mismatch_is_rejected() {
    let mut tokens = participant_tokens();
    tokens[0] = named("total", uint(32, 1000));
    assert!(matches!(
        ParticipantInfo::try_from(tokens),
        Err(DePoolError::InvalidAbi)
    ));
}

#[test]
fn depool_tuple_decodes() {
    let info = DePoolInfo::try_from(depool_tokens()).unwrap();
    assert!(!info.pool_closed);
    assert_eq!(info.min_stake, 10_000_000_000);
    assert_eq!(info.validator_assurance, 100_000_000_000);
    assert_eq!(info.participant_reward_fraction, 70);
    assert_eq!(info.validator_reward_fraction, 30);
    assert_eq!(info.balance_threshold, 5_000_000_000);
    assert_eq!(info.validator_wallet, addr(9));
    assert_eq!(info.proxies, vec![addr(11), addr(12)]);
    assert_eq!(info.stake_fee, 500_000_000);
    assert_eq!(info.ret_or_reinv_fee, 400_000_000);
    assert_eq!(info.proxy_fee, 90_000_000);
}

#[test]
fn depool_tuple_mistyped_field_is_rejected() {
    let mut tokens = depool_tokens();
    tokens[3] = named("participantRewardFraction", uint(64, 70));
    assert!(matches!(DePoolInfo::try_from(tokens), Err(DePoolError::InvalidAbi)));
}

#[test]
fn schema_lookup_misses_with_unknown_function() {
    let schema = depool_v3();
    assert!(schema.function("getParticipantInfo").is_ok());
    assert!(schema.function("getDePoolInfo").is_ok());
    assert!(matches!(
        schema.function("transferStake"),
        Err(DePoolError::UnknownFunction)
    ));
}

#[test]
fn add_stake_message_prepays_stake_and_fee() {
    let pool = addr(1);
    let msg = prepare_add_ordinary_stake(pool, 1000, 50000).unwrap();
    assert_eq!(msg.amount, 51000);
    assert!(!msg.bounce);
    assert!(msg.source.is_none());
    assert_eq!(msg.destination, pool);
    let schema = depool_v3();
    let selector = schema.function("addOrdinaryStake").unwrap().id;
    assert_eq!(msg.body.function_id, selector);
    assert_eq!(msg.body.args.len(), 1);
    assert_eq!(msg.body.args[0].name, "stake");
    assert_eq!(msg.body.args[0].value, uint(64, 50000));
}

#[test]
fn withdraw_message_prepays_the_fee_only() {
    let pool = addr(2);
    let msg = prepare_withdraw_part(pool, 1000, 20000).unwrap();
    assert_eq!(msg.amount, 1000);
    assert!(!msg.bounce);
    assert!(msg.source.is_none());
    assert_eq!(msg.destination, pool);
    let schema = depool_v3();
    let selector = schema.function("withdrawPart").unwrap().id;
    assert_eq!(msg.body.function_id, selector);
    assert_eq!(msg.body.args.len(), 1);
    assert_eq!(msg.body.args[0].name, "withdrawValue");
    assert_eq!(msg.body.args[0].value, uint(64, 20000));
}

#[test]
fn invoke_readonly_rejects_a_missing_contract() {
    // Whatever the execution would have yielded, a missing contract is
    // always UnknownContract.
    let r = invoke_readonly(&ContractState::NotExists, output_with(Some(participant_tokens())));
    assert!(matches!(r, Err(DePoolError::UnknownContract)));
    let r = invoke_readonly(&ContractState::NotExists, output_with(None));
    assert!(matches!(r, Err(DePoolError::UnknownContract)));
}

#[test]
fn invoke_readonly_rejects_an_output_less_run() {
    let state = ContractState::Exists(snapshot());
    let r = invoke_readonly(&state, output_with(None));
    assert!(matches!(r, Err(DePoolError::NonZeroResultCode)));
}

#[test]
fn invoke_readonly_hands_the_output_back() {
    let state = ContractState::Exists(snapshot());
    let r = invoke_readonly(&state, output_with(Some(participant_tokens()))).unwrap();
    assert_eq!(r, participant_tokens());
}

#[test]
fn participant_query_classifies_all_outcomes() {
    let r = get_participant_info(&ContractState::NotExists, output_with(None));
    assert!(matches!(r, Err(DePoolError::UnknownContract)));
    let state = ContractState::Exists(snapshot());
    let r = get_participant_info(&state, output_with(None));
    assert!(matches!(r, Err(DePoolError::NonZeroResultCode)));
    let r = get_participant_info(&state, output_with(Some(participant_tokens()))).unwrap();
    assert_eq!(r.total, 1000);
}

#[test]
fn pool_query_classifies_all_outcomes() {
    let r = get_depool_info(&ContractState::NotExists, output_with(Some(depool_tokens())));
    assert!(matches!(r, Err(DePoolError::UnknownContract)));
    let state = ContractState::Exists(snapshot());
    let r = get_depool_info(&state, output_with(None));
    assert!(matches!(r, Err(DePoolError::NonZeroResultCode)));
    let r = get_depool_info(&state, output_with(Some(depool_tokens()))).unwrap();
    assert_eq!(r.min_stake, 10_000_000_000);
}

#[test]
fn participant_query_inputs_carry_the_address() {
    let snap = snapshot();
    let state = DePoolContractState(&snap);
    let inputs = state.participant_info_inputs(addr(6));
    assert_eq!(inputs.len(), 1);
    assert_eq!(inputs[0].name, "addr");
    assert_eq!(inputs[0].value, Value::Address(addr(6)));
}

#[test]
fn message_builder_misses_with_unknown_function() {
    let schema = depool_v3();
    assert!(matches!(
        depool::MessageBuilder::new(&schema, "transferStake"),
        Err(DePoolError::UnknownFunction)
    ));
}
