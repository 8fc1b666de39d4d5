use vstd::prelude::*;
use cosmwasm_storage::to_length_prefixed;
use crate::types::ContractError;

verus! {

/// The storage namespace under which the reward source keeps its state: the
/// ASCII bytes of `state`.
pub open spec fn state_namespace() -> Seq<u8> {
    seq![115u8, 116u8, 97u8, 116u8, 101u8]
}

/// A namespace with its length in front, as two big-endian bytes.
pub open spec fn length_prefixed(namespace: Seq<u8>) -> Seq<u8> {
    seq![(namespace.len() / 256) as u8, (namespace.len() % 256) as u8] + namespace
}

/// Relies on cosmwasm_storage::to_length_prefixed: the namespace's length as
/// two big-endian bytes, then the namespace; it panics past 0xFFFF bytes.
#[verifier::external_body]
fn length_prefix(namespace: &Vec<u8>) -> (r: Vec<u8>)
    requires
        namespace@.len() <= 0xFFFF,
    ensures
        r@ == length_prefixed(namespace@),
{
    to_length_prefixed(namespace.as_slice())
}

/// The raw storage key of the reward source's state, which holds its
/// tracked previous reward balance.
pub fn previous_balance_key() -> (r: Vec<u8>)
    ensures
        r@ == length_prefixed(state_namespace()),
{
    let namespace: Vec<u8> = vec![115u8, 116u8, 97u8, 116u8, 101u8];
    assert(namespace@ =~= state_namespace());
    length_prefix(&namespace)
}

/// The reward source's tracked previous balance, from the raw bytes stored
/// under `previous_balance_key` and their decoding (`None` when they do not
/// decode into the reward source's state).
pub fn get_previous_balance(raw: &Vec<u8>, decoded: Option<u128>) -> (r: Result<
    u128,
    ContractError,
>)
    ensures
        raw@.len() == 0 ==> r == Err::<u128, ContractError>(ContractError::NotFound),
        raw@.len() != 0 ==> r == match decoded {
            Some(balance) => Ok::<u128, ContractError>(balance),
            None => Err::<u128, ContractError>(ContractError::DeserializationError),
        },
{
    if raw.len() == 0 {
        return Err(ContractError::NotFound);
    }
    match decoded {
        Some(balance) => Ok(balance),
        None => Err(ContractError::DeserializationError),
    }
}

} // verus!
