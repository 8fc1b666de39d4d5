use vstd::prelude::*;

verus! {

/// Contract configuration, fixed at instantiation.
pub struct Config {
    /// The settlement denomination that every reward is converted into.
    pub stable_denom: String,
    /// Address of the reward source.
    pub reward_contract: String,
    /// Address of the distribution authority (the overseer).
    pub overseer_contract: String,
}

pub struct ConfigModel {
    pub stable_denom: Seq<char>,
    pub reward_contract: Seq<char>,
    pub overseer_contract: Seq<char>,
}

impl View for Config {
    type V = ConfigModel;

    open spec fn view(&self) -> ConfigModel {
        ConfigModel {
            stable_denom: self.stable_denom@,
            reward_contract: self.reward_contract@,
            overseer_contract: self.overseer_contract@,
        }
    }
}

/// An amount of one asset.
#[derive(Clone, Debug, PartialEq, Eq)]
pub struct Coin {
    pub denom: String,
    pub amount: u128,
}

pub struct CoinModel {
    pub denom: Seq<char>,
    pub amount: u128,
}

impl View for Coin {
    type V = CoinModel;

    open spec fn view(&self) -> CoinModel {
        CoinModel { denom: self.denom@, amount: self.amount }
    }
}

/// The later stages that harvest queues as calls to the contract itself.
#[derive(Clone, Copy, Debug, PartialEq, Eq, Structural)]
pub enum Stage {
    /// Swap every foreign asset into the settlement denomination.
    Convert,
    /// Forward the settlement-denomination balance to the authority.
    Distribute,
}

/// An operation queued for the execution environment to run after the
/// current entry point returns.
#[derive(Clone, Debug, PartialEq, Eq)]
pub enum Operation {
    /// Ask the reward source to pay all claimable rewards to the caller.
    ClaimRewards { reward_contract: String },
    /// Call one of this contract's own stages.
    Invoke { contract: String, stage: Stage },
    /// Transfer a coin between two accounts.
    Send { from: String, to: String, coin: Coin },
    /// Exchange the offered coin into the asked denomination.
    Swap { trader: String, offer: Coin, ask_denom: String },
}

pub enum OperationModel {
    ClaimRewards { reward_contract: Seq<char> },
    Invoke { contract: Seq<char>, stage: Stage },
    Send { from: Seq<char>, to: Seq<char>, coin: CoinModel },
    Swap { trader: Seq<char>, offer: CoinModel, ask_denom: Seq<char> },
}

impl View for Operation {
    type V = OperationModel;

    open spec fn view(&self) -> OperationModel {
        match self {
            Operation::ClaimRewards { reward_contract } => OperationModel::ClaimRewards {
                reward_contract: reward_contract@,
            },
            Operation::Invoke { contract, stage } => OperationModel::Invoke {
                contract: contract@,
                stage: *stage,
            },
            Operation::Send { from, to, coin } => OperationModel::Send {
                from: from@,
                to: to@,
                coin: coin@,
            },
            Operation::Swap { trader, offer, ask_denom } => OperationModel::Swap {
                trader: trader@,
                offer: offer@,
                ask_denom: ask_denom@,
            },
        }
    }
}

/// An observability record emitted by an entry point.
#[derive(Clone, Copy, Debug, PartialEq, Eq, Structural)]
pub enum LogRecord {
    /// Distribute ran; `buffer_rewards` is the balance it found.
    DistributeRewards { buffer_rewards: u128 },
}

/// What an entry point hands back: the operations to run next, in order,
/// and its observability records.
#[derive(Clone, Debug, PartialEq, Eq)]
pub struct Response {
    pub messages: Vec<Operation>,
    pub log: Vec<LogRecord>,
}

pub struct ResponseModel {
    pub messages: Seq<OperationModel>,
    pub log: Seq<LogRecord>,
}

impl View for Response {
    type V = ResponseModel;

    open spec fn view(&self) -> ResponseModel {
        ResponseModel {
            messages: self.messages@.map_values(|m: Operation| m@),
            log: self.log@,
        }
    }
}

/// Why an entry point refused to run.
#[derive(Clone, Copy, Debug, PartialEq, Eq, Structural)]
pub enum ContractError {
    /// The caller is not allowed to invoke this entry point.
    Unauthorized,
    /// A ledger or storage query failed.
    QueryFailure,
    /// The reward source's stored state could not be decoded.
    DeserializationError,
    /// The reward source holds no stored state under the expected key.
    NotFound,
}

/// The parameters of the chain's transfer tax.
#[derive(Clone, Copy, Debug, PartialEq, Eq, Structural)]
pub struct TaxParams {
    /// Tax rate as a fixed-point fraction with 18 decimal places
    /// (`10_000_000_000_000_000` is one percent).
    pub rate: u64,
    /// Largest tax charged on one transfer of the denomination.
    pub cap: u128,
}

} // verus!
