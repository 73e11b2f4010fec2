//! Checks and conversions the tier contract's handlers share.
use vstd::prelude::*;
use crate::common::{all_uscrt, sum_amounts, sum_uscrt, uscrt_coin, uscrt_denom, uscrt_prefix_fits, Coin};
use crate::error::ContractError;

verus! {

/// Only the admin may act: `sender` must be the admin's address.
pub fn assert_admin(sender: &String, admin: &String) -> (r: Result<(), ContractError>)
    ensures
        sender@ == admin@ ==> r is Ok,
        sender@ != admin@ ==> r == Err::<(), ContractError>(ContractError::Unauthorized),
{
    if *sender != *admin {
        return Err(ContractError::Unauthorized);
    }
    Ok(())
}

/// `validator` must be one of the chain's validators.
pub fn check_validator(validators: &Vec<String>, validator: &String) -> (r: Result<
    (),
    ContractError,
>)
    ensures
        (exists|i: int| 0 <= i < validators@.len() && #[trigger] validators@[i]@ == validator@)
            ==> r is Ok,
        !(exists|i: int| 0 <= i < validators@.len() && #[trigger] validators@[i]@ == validator@)
            ==> (r matches Err(ContractError::ValidatorNotFound(v)) && v@ == validator@),
{
    let mut i: usize = 0;
    while i < validators.len()
        invariant
            i <= validators@.len(),
            forall|j: int| 0 <= j < i ==> #[trigger] validators@[j]@ != validator@,
        decreases validators@.len() - i,
    {
        if validators[i] == *validator {
            return Ok(());
        }
        i = i + 1;
    }
    Err(ContractError::ValidatorNotFound(validator.clone()))
}

/// Total uscrt sent with a deposit; any other denomination is refused.
pub fn get_deposit(sent_funds: &Vec<Coin>) -> (r: Result<u128, ContractError>)
    requires
        uscrt_prefix_fits(sent_funds@),
    ensures
        all_uscrt(sent_funds@) ==> r == Ok::<u128, ContractError>(sum_amounts(sent_funds@) as u128),
        !all_uscrt(sent_funds@) ==> r == Err::<u128, ContractError>(ContractError::UnsupportedToken),
{
    sum_uscrt(sent_funds)
}

/// A delegation as the staking module reports it, with rewards in every
/// denomination.
#[derive(Clone, Debug, PartialEq, Eq)]
pub struct FixedFullDelegation {
    pub delegator: String,
    pub validator: String,
    pub amount: Coin,
    pub can_redelegate: Coin,
    pub accumulated_rewards: Vec<Coin>,
}

/// A delegation with its uscrt rewards only.
#[derive(Clone, Debug, PartialEq, Eq)]
pub struct FullDelegation {
    pub delegator: String,
    pub validator: String,
    pub amount: Coin,
    pub can_redelegate: Coin,
    pub accumulated_rewards: Coin,
}

impl FullDelegation {
    /// Keeps the first uscrt reward of `val`, or zero uscrt when it has none.
    pub fn from(val: FixedFullDelegation) -> (r: Self)
        ensures
            r.delegator == val.delegator,
            r.validator == val.validator,
            r.amount == val.amount,
            r.can_redelegate == val.can_redelegate,
            forall|k: int|
                0 <= k < val.accumulated_rewards@.len()
                    && #[trigger] val.accumulated_rewards@[k].denom@ == uscrt_denom()
                    && (forall|j: int| 0 <= j < k ==> val.accumulated_rewards@[j].denom@ != uscrt_denom())
                    ==> r.accumulated_rewards == val.accumulated_rewards@[k],
            (forall|j: int|
                0 <= j < val.accumulated_rewards@.len() ==> #[trigger] val.accumulated_rewards@[j].denom@
                    != uscrt_denom()) ==> r.accumulated_rewards.denom@ == uscrt_denom()
                && r.accumulated_rewards.amount == 0,
    {
        let denom = crate::common::uscrt_string();
        let rewards = &val.accumulated_rewards;
        let mut i: usize = 0;
        let mut found: Option<Coin> = None;
        while i < rewards.len()
            invariant_except_break
                found is None,
            invariant
                i <= rewards@.len(),
                denom@ == uscrt_denom(),
                forall|j: int| 0 <= j < i ==> rewards@[j].denom@ != uscrt_denom(),
            ensures
                i <= rewards@.len(),
                forall|j: int| 0 <= j < i ==> rewards@[j].denom@ != uscrt_denom(),
                found is None ==> i == rewards@.len(),
                found matches Some(c) ==> i < rewards@.len() && c == rewards@[i as int]
                    && c.denom@ == uscrt_denom(),
            decreases rewards@.len() - i,
        {
            if rewards[i].denom == denom {
                found = Some(rewards[i].clone());
                break;
            }
            i = i + 1;
        }
        let accumulated_rewards = match found {
            Some(c) => c,
            None => uscrt_coin(0),
        };
        FullDelegation {
            delegator: val.delegator,
            validator: val.validator,
            amount: val.amount,
            can_redelegate: val.can_redelegate,
            accumulated_rewards,
        }
    }
}

} // verus!
