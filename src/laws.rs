use vstd::prelude::*;
use crate::distribution::{distribute_response, swap_messages, swap_of};
use crate::tax::{lemma_discount_bounded, net_after_tax, tax_of, DECIMAL_FRACTIONAL};
use crate::types::{CoinModel, ConfigModel, OperationModel, TaxParams};

verus! {

/// Convert plans exactly one exchange for each held balance outside the
/// settlement denomination, in the order the balances are listed, and
/// nothing else: with no such balance, it plans nothing.
pub proof fn lemma_one_swap_per_foreign_asset(
    trader: Seq<char>,
    ask_denom: Seq<char>,
    balances: Seq<CoinModel>,
)
    ensures
        swap_messages(trader, ask_denom, balances) == balances.filter(
            |c: CoinModel| c.denom != ask_denom,
        ).map_values(|c: CoinModel| swap_of(trader, c, ask_denom)),
        (forall|i: int| 0 <= i < balances.len() ==> #[trigger] balances[i].denom == ask_denom)
            ==> swap_messages(trader, ask_denom, balances).len() == 0,
    decreases balances.len(),
{
    let pred = |c: CoinModel| c.denom != ask_denom;
    let to_swap = |c: CoinModel| swap_of(trader, c, ask_denom);
    reveal(Seq::filter);
    if balances.len() == 0 {
        assert(balances.filter(pred).map_values(to_swap) =~= Seq::empty());
    } else {
        let rest = balances.drop_last();
        lemma_one_swap_per_foreign_asset(trader, ask_denom, rest);
        if pred(balances.last()) {
            assert(balances.filter(pred).map_values(to_swap) =~= rest.filter(pred).map_values(
                to_swap,
            ).push(to_swap(balances.last())));
        } else {
            assert(balances.filter(pred) == rest.filter(pred));
        }
        if forall|i: int| 0 <= i < balances.len() ==> #[trigger] balances[i].denom == ask_denom {
            assert forall|i: int| 0 <= i < rest.len() implies #[trigger] rest[i].denom
                == ask_denom by {
                assert(rest[i] == balances[i]);
            }
            assert(balances.last() == balances[balances.len() - 1]);
        }
    }
}

/// The tax never exceeds the amount it is taken from, so the amount that
/// reaches the recipient and the tax together make up the whole amount.
pub proof fn lemma_tax_conserves(amount: u128, tax: TaxParams)
    ensures
        0 <= tax_of(amount as int, tax.rate as int, tax.cap as int) <= amount,
        0 <= net_after_tax(amount as int, tax) <= amount,
        net_after_tax(amount as int, tax) + tax_of(amount as int, tax.rate as int, tax.cap as int)
            == amount,
{
    lemma_discount_bounded(amount as int, DECIMAL_FRACTIONAL + tax.rate as int);
}

/// A full cycle in which the reward source paid `reward` of the settlement
/// denomination straight to the contract, which holds no other asset:
/// convert plans no exchange, and distribute transfers exactly the taxed
/// reward to the authority (nothing when the reward is zero), so the
/// transfer and the tax together account for the reward once.
pub proof fn lemma_full_cycle(
    config: ConfigModel,
    contract: Seq<char>,
    held: Seq<CoinModel>,
    reward: u128,
    tax: TaxParams,
)
    requires
        forall|i: int| 0 <= i < held.len() ==> #[trigger] held[i].denom == config.stable_denom,
    ensures
        swap_messages(contract, config.stable_denom, held).len() == 0,
        reward == 0 ==> distribute_response(config, contract, reward, tax).messages.len() == 0,
        reward != 0 ==> distribute_response(config, contract, reward, tax).messages == seq![
            OperationModel::Send {
                from: contract,
                to: config.overseer_contract,
                coin: CoinModel {
                    denom: config.stable_denom,
                    amount: net_after_tax(reward as int, tax) as u128,
                },
            },
        ],
        net_after_tax(reward as int, tax) + tax_of(reward as int, tax.rate as int, tax.cap as int)
            == reward,
{
    lemma_one_swap_per_foreign_asset(contract, config.stable_denom, held);
    lemma_tax_conserves(reward, tax);
}

} // verus!
