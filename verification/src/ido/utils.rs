//! Checks the IDO contract's handlers share.
use vstd::prelude::*;
use crate::common::{all_uscrt, bytes_eq, sum_amounts, sum_uscrt, uscrt_prefix_fits, Coin};
use crate::error::ContractError;
use crate::ido::msg::ContractStatus;
use crate::ido::state::{Config, Ido};

verus! {

/// Refuses every action while the contract is stopped.
pub fn assert_contract_active(config: &Config) -> (r: Result<(), ContractError>)
    ensures
        config.status == ContractStatus::Active.code() ==> r is Ok,
        config.status != ContractStatus::Active.code() ==> r == Err::<(), ContractError>(
            ContractError::ContractNotActive,
        ),
{
    let active_status = ContractStatus::Active.as_u8();
    if config.status != active_status {
        return Err(ContractError::ContractNotActive);
    }
    Ok(())
}

/// Only the contract's admin may act; `address` is the sender's canonical
/// address.
pub fn assert_admin(config: &Config, address: &Vec<u8>) -> (r: Result<(), ContractError>)
    ensures
        config.admin@ == address@ ==> r is Ok,
        config.admin@ != address@ ==> r == Err::<(), ContractError>(ContractError::Unauthorized),
{
    if !bytes_eq(&config.admin, address) {
        return Err(ContractError::Unauthorized);
    }
    Ok(())
}

/// Only a sale's creator may act on it; `address` is the sender's canonical
/// address.
pub fn assert_ido_admin(ido: &Ido, address: &Vec<u8>) -> (r: Result<(), ContractError>)
    ensures
        ido.admin@ == address@ ==> r is Ok,
        ido.admin@ != address@ ==> r == Err::<(), ContractError>(ContractError::Unauthorized),
{
    if !bytes_eq(&ido.admin, address) {
        return Err(ContractError::Unauthorized);
    }
    Ok(())
}

/// Whether an address may buy at its own tier: its whitelist entry decides
/// when it has one; otherwise the sale decides, by whether its whitelist is
/// shared (everyone not blocked) or not (no one not listed).
pub fn in_whitelist(entry: Option<bool>, ido: &Ido) -> (r: bool)
    ensures
        entry matches Some(v) ==> r == v,
        entry is None ==> r == ido.shared_whitelist,
{
    match entry {
        Some(value) => value,
        None => ido.shared_whitelist,
    }
}

/// Total uscrt sent with a purchase; any other denomination is refused.
pub fn sent_funds(coins: &Vec<Coin>) -> (r: Result<u128, ContractError>)
    requires
        uscrt_prefix_fits(coins@),
    ensures
        all_uscrt(coins@) ==> r == Ok::<u128, ContractError>(sum_amounts(coins@) as u128),
        !all_uscrt(coins@) ==> r == Err::<u128, ContractError>(ContractError::UnsupportedToken),
{
    sum_uscrt(coins)
}

} // verus!
