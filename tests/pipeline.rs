use custody_beth::{
    deduct_tax, distribute_hook, distribute_rewards, get_previous_balance, previous_balance_key,
    swap_to_stable_denom, Coin, Config, ContractError, LogRecord, Operation, Response, Stage,
    TaxParams,
};

const CONTRACT: &str = "custody";
const OVERSEER: &str = "overseer";
const REWARD: &str = "reward";
const STABLE: &str = "uusd";

/// One percent, in 18-decimal fixed point.
const ONE_PERCENT: u64 = 10_000_000_000_000_000;

fn config() -> Config {
    Config {
        stable_denom: STABLE.to_string(),
        reward_contract: REWARD.to_string(),
        overseer_contract: OVERSEER.to_string(),
    }
}

fn s(text: &str) -> String {
    text.to_string()
}

fn coin(denom: &str, amount: u128) -> Coin {
    Coin { denom: s(denom), amount }
}

fn tax(rate: u64, cap: u128) -> TaxParams {
    TaxParams { rate, cap }
}

fn empty_response() -> Response {
    Response { messages: vec![], log: vec![] }
}

fn harvest_messages() -> Vec<Operation> {
    vec![
        Operation::ClaimRewards { reward_contract: s(REWARD) },
        Operation::Invoke { contract: s(CONTRACT), stage: Stage::Convert },
        Operation::Invoke { contract: s(CONTRACT), stage: Stage::Distribute },
    ]
}

fn swap(denom: &str, amount: u128) -> Operation {
    Operation::Swap { trader: s(CONTRACT), offer: coin(denom, amount), ask_denom: s(STABLE) }
}

#[test]
fn harvest_queues_claim_convert_distribute_on_new_reward() {
    let r = distribute_rewards(&config(), &s(OVERSEER), &s(CONTRACT), Some(150), Ok(100));
    assert_eq!(r, Ok(Response { messages: harvest_messages(), log: vec![] }));
}

#[test]
fn harvest_unchanged_balance_is_a_no_op() {
    let r = distribute_rewards(&config(), &s(OVERSEER), &s(CONTRACT), Some(100), Ok(100));
    assert_eq!(r, Ok(empty_response()));
}

#[test]
fn harvest_lower_balance_still_proceeds() {
    let r = distribute_rewards(&config(), &s(OVERSEER), &s(CONTRACT), Some(40), Ok(100));
    assert_eq!(r, Ok(Response { messages: harvest_messages(), log: vec![] }));
}

#[test]
fn harvest_failed_balance_query_is_a_query_failure() {
    let r = distribute_rewards(&config(), &s(OVERSEER), &s(CONTRACT), None, Ok(0));
    assert_eq!(r, Err(ContractError::QueryFailure));
    let r = distribute_rewards(&config(), &s(OVERSEER), &s(CONTRACT), None, Ok(7));
    assert_eq!(r, Err(ContractError::QueryFailure));
}

#[test]
fn harvest_failed_balance_query_still_needs_the_authority() {
    let r = distribute_rewards(&config(), &s("someone"), &s(CONTRACT), None, Ok(7));
    assert_eq!(r, Err(ContractError::Unauthorized));
}

#[test]
fn harvest_rejects_everyone_but_the_authority() {
    for caller in [CONTRACT, REWARD, "someone"] {
        let r = distribute_rewards(&config(), &s(caller), &s(CONTRACT), Some(150), Ok(100));
        assert_eq!(r, Err(ContractError::Unauthorized));
    }
}

#[test]
fn harvest_authorization_comes_before_the_tracked_balance() {
    let r = distribute_rewards(
        &config(),
        &s("someone"),
        &s(CONTRACT),
        Some(150),
        Err(ContractError::DeserializationError),
    );
    assert_eq!(r, Err(ContractError::Unauthorized));
    let r = distribute_rewards(
        &config(),
        &s(OVERSEER),
        &s(CONTRACT),
        Some(150),
        Err(ContractError::DeserializationError),
    );
    assert_eq!(r, Err(ContractError::DeserializationError));
}

#[test]
fn convert_rejects_everyone_but_the_contract() {
    for caller in [OVERSEER, REWARD, "someone"] {
        let r = swap_to_stable_denom(&config(), &s(caller), &s(CONTRACT), Ok(vec![coin("uluna", 5)]));
        assert_eq!(r, Err(ContractError::Unauthorized));
    }
}

#[test]
fn distribute_rejects_everyone_but_the_contract() {
    for caller in [OVERSEER, REWARD, "someone"] {
        let r = distribute_hook(&config(), &s(caller), &s(CONTRACT), Ok(50), Ok(tax(0, 0)));
        assert_eq!(r, Err(ContractError::Unauthorized));
    }
}

#[test]
fn convert_with_no_balances_plans_nothing() {
    let r = swap_to_stable_denom(&config(), &s(CONTRACT), &s(CONTRACT), Ok(vec![]));
    assert_eq!(r, Ok(empty_response()));
}

#[test]
fn convert_with_only_settlement_balance_plans_nothing() {
    let r = swap_to_stable_denom(&config(), &s(CONTRACT), &s(CONTRACT), Ok(vec![coin(STABLE, 50)]));
    assert_eq!(r, Ok(empty_response()));
}

#[test]
fn convert_plans_one_swap_per_foreign_asset_in_order() {
    let held = vec![coin("uluna", 10), coin(STABLE, 50), coin("ukrw", 3), coin("usdr", 0)];
    let r = swap_to_stable_denom(&config(), &s(CONTRACT), &s(CONTRACT), Ok(held));
    let expected = vec![swap("uluna", 10), swap("ukrw", 3), swap("usdr", 0)];
    assert_eq!(r, Ok(Response { messages: expected, log: vec![] }));
}

#[test]
fn convert_propagates_a_failed_balance_listing() {
    let r = swap_to_stable_denom(&config(), &s(CONTRACT), &s(CONTRACT), Err(ContractError::QueryFailure));
    assert_eq!(r, Err(ContractError::QueryFailure));
}

#[test]
fn distribute_forwards_taxed_reward_to_the_authority() {
    let r = distribute_hook(&config(), &s(CONTRACT), &s(CONTRACT), Ok(50), Ok(tax(ONE_PERCENT, 1_000_000)));
    let expected = Response {
        messages: vec![Operation::Send { from: s(CONTRACT), to: s(OVERSEER), coin: coin(STABLE, 49) }],
        log: vec![LogRecord::DistributeRewards { buffer_rewards: 50 }],
    };
    assert_eq!(r, Ok(expected));
}

#[test]
fn distribute_zero_balance_sends_nothing_but_logs() {
    let r = distribute_hook(&config(), &s(CONTRACT), &s(CONTRACT), Ok(0), Ok(tax(ONE_PERCENT, 10)));
    let expected = Response { messages: vec![], log: vec![LogRecord::DistributeRewards { buffer_rewards: 0 }] };
    assert_eq!(r, Ok(expected.clone()));
    let r = distribute_hook(&config(), &s(CONTRACT), &s(CONTRACT), Ok(0), Err(ContractError::QueryFailure));
    assert_eq!(r, Ok(expected));
}

#[test]
fn distribute_needs_the_tax_only_for_a_transfer() {
    let r = distribute_hook(&config(), &s(CONTRACT), &s(CONTRACT), Ok(50), Err(ContractError::QueryFailure));
    assert_eq!(r, Err(ContractError::QueryFailure));
}

#[test]
fn distribute_propagates_a_failed_balance_query() {
    let r = distribute_hook(&config(), &s(CONTRACT), &s(CONTRACT), Err(ContractError::QueryFailure), Ok(tax(0, 0)));
    assert_eq!(r, Err(ContractError::QueryFailure));
}

#[test]
fn deduct_tax_without_rate_keeps_the_amount() {
    assert_eq!(deduct_tax(1_000, tax(0, 1_000)), 1_000);
    assert_eq!(deduct_tax(0, tax(ONE_PERCENT, 1_000)), 0);
}

#[test]
fn deduct_tax_rounds_the_kept_part_down() {
    // 50 / 1.01 = 49.5..., so 49 is kept and 1 is taxed
    assert_eq!(deduct_tax(50, tax(ONE_PERCENT, 100)), 49);
    // 1_000_000 / 1.01 = 990_099.0..., so 9_901 is taxed
    assert_eq!(deduct_tax(1_000_000, tax(ONE_PERCENT, 100_000)), 990_099);
}

#[test]
fn deduct_tax_is_capped() {
    assert_eq!(deduct_tax(1_000_000, tax(ONE_PERCENT, 100)), 999_900);
    assert_eq!(deduct_tax(1_000_000, tax(ONE_PERCENT, 0)), 1_000_000);
}

#[test]
fn deduct_tax_handles_the_largest_amount() {
    let net = deduct_tax(u128::MAX, tax(ONE_PERCENT, u128::MAX));
    assert!(net < u128::MAX);
    assert_eq!(deduct_tax(u128::MAX, tax(ONE_PERCENT, 5)), u128::MAX - 5);
}

#[test]
fn previous_balance_key_is_length_prefixed_state() {
    assert_eq!(previous_balance_key(), b"\x00\x05state".to_vec());
}

#[test]
fn previous_balance_missing_state_is_not_found() {
    assert_eq!(get_previous_balance(&vec![], None), Err(ContractError::NotFound));
}

#[test]
fn previous_balance_undecodable_state_is_rejected() {
    assert_eq!(get_previous_balance(&b"{}".to_vec(), None), Err(ContractError::DeserializationError));
}

#[test]
fn previous_balance_is_read_from_decoded_state() {
    let raw = b"{\"prev_reward_balance\":\"100\"}".to_vec();
    assert_eq!(get_previous_balance(&raw, Some(100)), Ok(100));
}

#[test]
fn full_cycle_with_new_reward_transfers_taxed_amount() {
    let harvest = distribute_rewards(&config(), &s(OVERSEER), &s(CONTRACT), Some(150), get_previous_balance(&b"x".to_vec(), Some(100)));
    assert_eq!(harvest.unwrap().messages, harvest_messages());
    let convert = swap_to_stable_denom(&config(), &s(CONTRACT), &s(CONTRACT), Ok(vec![coin(STABLE, 50)]));
    assert!(convert.unwrap().messages.is_empty());
    let distribute = distribute_hook(&config(), &s(CONTRACT), &s(CONTRACT), Ok(50), Ok(tax(ONE_PERCENT, 1_000))).unwrap();
    assert_eq!(distribute.messages, vec![Operation::Send { from: s(CONTRACT), to: s(OVERSEER), coin: coin(STABLE, deduct_tax(50, tax(ONE_PERCENT, 1_000))) }]);
    assert_eq!(distribute.log, vec![LogRecord::DistributeRewards { buffer_rewards: 50 }]);
}

#[test]
fn full_cycle_without_new_reward_queues_nothing() {
    let harvest = distribute_rewards(&config(), &s(OVERSEER), &s(CONTRACT), Some(100), get_previous_balance(&b"x".to_vec(), Some(100)));
    assert_eq!(harvest, Ok(empty_response()));
}
