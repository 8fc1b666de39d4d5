use vstd::prelude::*;
use crate::tax::{deduct_tax, net_after_tax};
use crate::types::{
    Coin, CoinModel, Config, ConfigModel, ContractError, LogRecord, Operation, OperationModel,
    Response, ResponseModel, Stage, TaxParams,
};

verus! {

/// A response that queues nothing and records nothing.
pub open spec fn empty_response() -> ResponseModel {
    ResponseModel { messages: Seq::empty(), log: Seq::empty() }
}

/// The operations harvest queues when a new reward has been observed: claim
/// the reward, then convert, then distribute.
pub open spec fn harvest_messages(config: ConfigModel, contract: Seq<char>) -> Seq<OperationModel> {
    seq![
        OperationModel::ClaimRewards { reward_contract: config.reward_contract },
        OperationModel::Invoke { contract, stage: Stage::Convert },
        OperationModel::Invoke { contract, stage: Stage::Distribute },
    ]
}

/// Harvest's response once the caller is known to be the authority and both
/// balances are known: nothing when the reward source's balance is
/// unchanged, else the three chained operations.
pub open spec fn harvest_response(
    config: ConfigModel,
    contract: Seq<char>,
    current_reward_balance: u128,
    previous_reward_balance: u128,
) -> ResponseModel {
    if current_reward_balance == previous_reward_balance {
        empty_response()
    } else {
        ResponseModel { messages: harvest_messages(config, contract), log: Seq::empty() }
    }
}

fn empty() -> (r: Response)
    ensures
        r@ == empty_response(),
{
    let r = Response { messages: Vec::new(), log: Vec::new() };
    assert(r@.messages =~= Seq::empty());
    r
}

/// Harvest: asks the reward source to pay out and queues the convert and
/// distribute stages on this contract, unless no new reward has accrued.
///
/// `current_reward_balance` is the reward source's settlement-denomination
/// balance (`None` when that query failed), and `previous_reward_balance`
/// the outcome of reading the reward source's tracked balance.
pub fn distribute_rewards(
    config: &Config,
    sender: &String,
    contract_addr: &String,
    current_reward_balance: Option<u128>,
    previous_reward_balance: Result<u128, ContractError>,
) -> (r: Result<Response, ContractError>)
    ensures
        sender@ != config.overseer_contract@ ==> r == Err::<Response, ContractError>(
            ContractError::Unauthorized,
        ),
        sender@ == config.overseer_contract@ ==> match previous_reward_balance {
            Err(e) => r == Err::<Response, ContractError>(e),
            Ok(previous) => match current_reward_balance {
                None => r == Err::<Response, ContractError>(ContractError::QueryFailure),
                Some(current) => r is Ok && r->Ok_0@ == harvest_response(
                    config@,
                    contract_addr@,
                    current,
                    previous,
                ),
            },
        },
        // an unchanged balance queues nothing and records nothing
        sender@ == config.overseer_contract@ && previous_reward_balance is Ok
            && current_reward_balance == Some(previous_reward_balance->Ok_0) ==> r is Ok
            && r->Ok_0@ == empty_response(),
{
    if *sender != config.overseer_contract {
        return Err(ContractError::Unauthorized);
    }
    let previous: u128 = match previous_reward_balance {
        Ok(balance) => balance,
        Err(e) => {
            return Err(e);
        },
    };
    let current: u128 = match current_reward_balance {
        Some(balance) => balance,
        None => {
            return Err(ContractError::QueryFailure);
        },
    };
    if current == previous {
        return Ok(empty());
    }
    let mut messages: Vec<Operation> = Vec::new();
    messages.push(Operation::ClaimRewards { reward_contract: config.reward_contract.clone() });
    messages.push(Operation::Invoke { contract: contract_addr.clone(), stage: Stage::Convert });
    messages.push(Operation::Invoke { contract: contract_addr.clone(), stage: Stage::Distribute });
    let r = Response { messages, log: Vec::new() };
    assert(r@.messages =~= harvest_messages(config@, contract_addr@));
    assert(r@.log =~= Seq::empty());
    Ok(r)
}

/// Distribute's response once the caller is known to be the contract itself
/// and its settlement-denomination balance `amount` is known: a transfer of
/// the taxed amount to the authority unless the balance is zero, and in
/// either case a record of the balance.
pub open spec fn distribute_response(
    config: ConfigModel,
    contract: Seq<char>,
    amount: u128,
    tax: TaxParams,
) -> ResponseModel {
    ResponseModel {
        messages: if amount == 0 {
            Seq::empty()
        } else {
            seq![
                OperationModel::Send {
                    from: contract,
                    to: config.overseer_contract,
                    coin: CoinModel {
                        denom: config.stable_denom,
                        amount: net_after_tax(amount as int, tax) as u128,
                    },
                },
            ]
        },
        log: seq![LogRecord::DistributeRewards { buffer_rewards: amount }],
    }
}

/// Distribute: forwards this contract's whole settlement-denomination
/// balance, net of tax, to the distribution authority. Only the contract
/// itself may call it.
///
/// `reward_balance` is the outcome of querying that balance, and `tax` the
/// outcome of querying the tax parameters, which is consulted only when the
/// balance is not zero.
pub fn distribute_hook(
    config: &Config,
    sender: &String,
    contract_addr: &String,
    reward_balance: Result<u128, ContractError>,
    tax: Result<TaxParams, ContractError>,
) -> (r: Result<Response, ContractError>)
    ensures
        sender@ != contract_addr@ ==> r == Err::<Response, ContractError>(
            ContractError::Unauthorized,
        ),
        sender@ == contract_addr@ ==> match reward_balance {
            Err(e) => r == Err::<Response, ContractError>(e),
            Ok(amount) => if amount != 0 && tax is Err {
                r == Err::<Response, ContractError>(tax->Err_0)
            } else {
                r is Ok && r->Ok_0@ == distribute_response(
                    config@,
                    contract_addr@,
                    amount,
                    tax->Ok_0,
                )
            },
        },
        // a zero balance queues no transfer but is still recorded
        sender@ == contract_addr@ && reward_balance == Ok::<u128, ContractError>(0) ==> r is Ok
            && r->Ok_0@.messages.len() == 0 && r->Ok_0@.log == seq![
            LogRecord::DistributeRewards { buffer_rewards: 0 },
        ],
{
    if *sender != *contract_addr {
        return Err(ContractError::Unauthorized);
    }
    let amount: u128 = match reward_balance {
        Ok(balance) => balance,
        Err(e) => {
            return Err(e);
        },
    };
    let mut messages: Vec<Operation> = Vec::new();
    if amount != 0 {
        let params = match tax {
            Ok(params) => params,
            Err(e) => {
                return Err(e);
            },
        };
        let net = deduct_tax(amount, params);
        messages.push(
            Operation::Send {
                from: contract_addr.clone(),
                to: config.overseer_contract.clone(),
                coin: Coin { denom: config.stable_denom.clone(), amount: net },
            },
        );
    }
    let mut log: Vec<LogRecord> = Vec::new();
    log.push(LogRecord::DistributeRewards { buffer_rewards: amount });
    let r = Response { messages, log };
    assert(r@.messages =~= distribute_response(config@, contract_addr@, amount, tax->Ok_0).messages);
    assert(r@.log =~= distribute_response(config@, contract_addr@, amount, tax->Ok_0).log);
    Ok(r)
}

/// The views of a list of coins.
pub open spec fn coins_view(coins: Seq<Coin>) -> Seq<CoinModel> {
    coins.map_values(|c: Coin| c@)
}

/// The exchange of the whole of `offer` into `ask_denom`, made by `trader`.
pub open spec fn swap_of(trader: Seq<char>, offer: CoinModel, ask_denom: Seq<char>) -> OperationModel {
    OperationModel::Swap { trader, offer, ask_denom }
}

/// Convert's plan: one exchange into `ask_denom` for each balance of another
/// denomination, in the order the balances are listed.
pub open spec fn swap_messages(
    trader: Seq<char>,
    ask_denom: Seq<char>,
    balances: Seq<CoinModel>,
) -> Seq<OperationModel>
    decreases balances.len(),
{
    if balances.len() == 0 {
        Seq::empty()
    } else {
        let planned = swap_messages(trader, ask_denom, balances.drop_last());
        if balances.last().denom == ask_denom {
            planned
        } else {
            planned.push(swap_of(trader, balances.last(), ask_denom))
        }
    }
}

/// Convert: plans one exchange of each held asset other than the settlement
/// denomination into the settlement denomination. Only the contract itself
/// may call it.
///
/// `balances` is the outcome of listing every balance this contract holds.
pub fn swap_to_stable_denom(
    config: &Config,
    sender: &String,
    contract_addr: &String,
    balances: Result<Vec<Coin>, ContractError>,
) -> (r: Result<Response, ContractError>)
    ensures
        sender@ != contract_addr@ ==> r == Err::<Response, ContractError>(
            ContractError::Unauthorized,
        ),
        sender@ == contract_addr@ ==> match balances {
            Err(e) => r == Err::<Response, ContractError>(e),
            Ok(held) => r is Ok && r->Ok_0@ == (ResponseModel {
                messages: swap_messages(contract_addr@, config.stable_denom@, coins_view(held@)),
                log: Seq::empty(),
            }),
        },
{
    if *sender != *contract_addr {
        return Err(ContractError::Unauthorized);
    }
    let held: Vec<Coin> = match balances {
        Ok(held) => held,
        Err(e) => {
            return Err(e);
        },
    };
    let ghost held_view = coins_view(held@);
    let mut messages: Vec<Operation> = Vec::new();
    let mut i: usize = 0;
    while i < held.len()
        invariant
            i <= held.len(),
            held_view == coins_view(held@),
            messages@.map_values(|m: Operation| m@) == swap_messages(
                contract_addr@,
                config.stable_denom@,
                held_view.take(i as int),
            ),
        decreases held.len() - i,
    {
        let coin = &held[i];
        assert(held_view.take(i + 1).drop_last() =~= held_view.take(i as int));
        assert(held_view.take(i + 1).last() == coin@);
        if coin.denom != config.stable_denom {
            let ghost before = messages@.map_values(|m: Operation| m@);
            messages.push(
                Operation::Swap {
                    trader: contract_addr.clone(),
                    offer: Coin { denom: coin.denom.clone(), amount: coin.amount },
                    ask_denom: config.stable_denom.clone(),
                },
            );
            assert(messages@.map_values(|m: Operation| m@) =~= before.push(
                swap_of(contract_addr@, coin@, config.stable_denom@),
            ));
        }
        i = i + 1;
    }
    assert(held_view.take(held.len() as int) =~= held_view);
    let r = Response { messages, log: Vec::new() };
    assert(r@.log =~= Seq::empty());
    Ok(r)
}

} // verus!
