//! Reward harvesting and settlement for a collateral custody contract.
//!
//! The pipeline runs in three stages, each a separately dispatched entry
//! point: harvest (authority only) asks the reward source to pay out and
//! queues the two later stages; convert (self only) plans one swap per held
//! foreign asset; distribute (self only) forwards the settlement-denomination
//! balance, net of tax, to the distribution authority.
//!
//! Every entry point here is a function from plain values (the caller, the
//! configuration, and the results of the ledger queries it needs) to the list
//! of operations that the execution environment should run next.

mod distribution;
mod laws;
mod reward_state;
mod tax;
mod types;

pub use distribution::{
    coins_view, distribute_hook, distribute_response, distribute_rewards, empty_response,
    harvest_messages, harvest_response, swap_messages, swap_of, swap_to_stable_denom,
};
pub use laws::{lemma_full_cycle, lemma_one_swap_per_foreign_asset, lemma_tax_conserves};
pub use reward_state::{
    get_previous_balance, length_prefixed, previous_balance_key, state_namespace,
};
pub use tax::{deduct_tax, net_after_tax, tax_of, DECIMAL_FRACTIONAL};
pub use types::{
    Coin, CoinModel, Config, ConfigModel, ContractError, LogRecord, Operation, OperationModel,
    Response, ResponseModel, Stage, TaxParams,
};
