//! Messages the IDO contract receives and the answers it gives.
use vstd::prelude::*;
use crate::error::ContractError;
use crate::tier::state::strictly_decreasing;

verus! {

/// Outcome flag of a handled message.
#[derive(Clone, Copy, Debug, PartialEq, Eq)]
pub enum ResponseStatus {
    Success,
    Failure,
}

/// Whether the contract accepts new sales, purchases and releases.
#[derive(Clone, Copy, Debug, PartialEq, Eq)]
pub enum ContractStatus {
    Active,
    Stopped,
}

impl ContractStatus {
    /// The number by which the status is stored.
    pub open spec fn code(self) -> u8 {
        match self {
            ContractStatus::Active => 0,
            ContractStatus::Stopped => 1,
        }
    }

    /// An active contract is stored as 0, a stopped one as 1.
    pub proof fn lemma_codes()
        ensures
            ContractStatus::Active.code() == 0,
            ContractStatus::Stopped.code() == 1,
    {
    }

    /// The number by which the status is stored.
    pub fn as_u8(&self) -> (r: u8)
        ensures
            r == self.code(),
    {
        match self {
            ContractStatus::Active => 0,
            ContractStatus::Stopped => 1,
        }
    }
}

/// An NFT that may grant its owner a better tier.
#[derive(Clone, Debug, PartialEq, Eq)]
pub struct NftToken {
    pub token_id: String,
    pub viewing_key: String,
}

/// Instantiation parameters.
#[derive(Clone, Debug, PartialEq, Eq)]
pub struct InitMsg {
    pub admin: Option<String>,
    /// Most that a buyer of each tier (best first) may pay in one sale.
    pub max_payments: Vec<u128>,
    /// Seconds after a sale's end until the tokens bought by each tier are
    /// released.
    pub lock_periods: Vec<u64>,
    pub tier_contract: String,
    pub tier_contract_hash: String,
    pub nft_contract: String,
    pub nft_contract_hash: String,
}

impl InitMsg {
    /// The maximal payments are given, each larger than the next.
    pub fn check(&self) -> (r: Result<(), ContractError>)
        ensures
            self.max_payments@.len() == 0 ==> r == Err::<(), ContractError>(
                ContractError::MaxPaymentsEmpty,
            ),
            self.max_payments@.len() > 0 && !strictly_decreasing(self.max_payments@) ==> r == Err::<
                (),
                ContractError,
            >(ContractError::MaxPaymentsNotDecreasing),
            self.max_payments@.len() > 0 && strictly_decreasing(self.max_payments@) ==> r is Ok,
    {
        if self.max_payments.len() == 0 {
            return Err(ContractError::MaxPaymentsEmpty);
        }
        if !crate::common::is_strictly_decreasing(&self.max_payments) {
            return Err(ContractError::MaxPaymentsNotDecreasing);
        }
        Ok(())
    }
}

/// How buyers pay in a sale.
#[derive(Clone, Debug, PartialEq, Eq)]
pub enum PaymentMethod {
    /// In uscrt sent with the purchase.
    Native,
    /// In a SNIP-20 token.
    Token { contract: String, code_hash: String },
}

/// Who may buy in a sale at their own tier.
#[derive(Clone, Debug, PartialEq, Eq)]
pub enum Whitelist {
    /// Only the listed addresses.
    Empty { with: Option<Vec<String>> },
    /// Everyone but the listed addresses.
    Shared { with_blocked: Option<Vec<String>> },
}

/// Messages the contract handles.
#[derive(Clone, Debug, PartialEq, Eq)]
pub enum HandleMsg {
    ChangeAdmin { admin: String, padding: Option<String> },
    ChangeStatus { status: ContractStatus, padding: Option<String> },
    StartIdo {
        start_time: u64,
        end_time: u64,
        token_contract: String,
        token_contract_hash: String,
        price: u128,
        payment: PaymentMethod,
        total_amount: u128,
        tokens_per_tier: Option<Vec<u128>>,
        padding: Option<String>,
        whitelist: Whitelist,
    },
    WhitelistAdd { addresses: Vec<String>, ido_id: u32, padding: Option<String> },
    WhitelistRemove { addresses: Vec<String>, ido_id: u32, padding: Option<String> },
    BuyTokens { ido_id: u32, amount: u128, token: Option<NftToken>, padding: Option<String> },
    RecvTokens {
        ido_id: u32,
        start: Option<u32>,
        limit: Option<u32>,
        purchase_indices: Option<Vec<u32>>,
        padding: Option<String>,
    },
    Withdraw { ido_id: u32, padding: Option<String> },
}

/// Answers to handled messages.
#[derive(Clone, Debug, PartialEq, Eq)]
pub enum HandleAnswer {
    ChangeAdmin { status: ResponseStatus },
    ChangeStatus { status: ResponseStatus },
    StartIdo { ido_id: u32, status: ResponseStatus, whitelist_size: u32 },
    WhitelistAdd { status: ResponseStatus, whitelist_size: u32 },
    WhitelistRemove { status: ResponseStatus, whitelist_size: u32 },
    BuyTokens { amount: u128, unlock_time: u64, status: ResponseStatus },
    RecvTokens { amount: u128, status: ResponseStatus },
    Withdraw { amount: u128, status: ResponseStatus },
}

/// Queries the contract answers.
#[derive(Clone, Debug, PartialEq, Eq)]
pub enum QueryMsg {
    Config {  },
    IdoAmount {  },
    IdoInfo { ido_id: u32 },
    InWhitelist { address: String, ido_id: u32 },
    Whitelist { ido_id: u32, start: u32, limit: u32 },
    IdoListOwnedBy { address: String, start: u32, limit: u32 },
    Purchases { ido_id: u32, address: String, start: u32, limit: u32 },
    ArchivedPurchases { ido_id: u32, address: String, start: u32, limit: u32 },
    UserInfo { address: String, ido_id: Option<u32> },
}

/// A purchase as a query shows it.
#[derive(Clone, Copy, Debug, PartialEq, Eq)]
pub struct PurchaseAnswer {
    pub tokens_amount: u128,
    pub timestamp: u64,
    pub unlock_time: u64,
}

/// Answers to queries.
#[derive(Clone, Debug, PartialEq, Eq)]
pub enum QueryAnswer {
    Config {
        admin: String,
        tier_contract: String,
        tier_contract_hash: String,
        nft_contract: String,
        nft_contract_hash: String,
        max_payments: Vec<u128>,
        lock_periods: Vec<u64>,
    },
    IdoAmount { amount: u32 },
    IdoInfo {
        admin: String,
        start_time: u64,
        end_time: u64,
        token_contract: String,
        token_contract_hash: String,
        price: u128,
        participants: u64,
        payment: PaymentMethod,
        sold_amount: u128,
        total_tokens_amount: u128,
        total_payment: u128,
        withdrawn: bool,
        shared_whitelist: bool,
    },
    InWhitelist { in_whitelist: bool },
    Whitelist { addresses: Vec<String>, amount: u32 },
    IdoListOwnedBy { ido_ids: Vec<u32>, amount: u32 },
    Purchases { purchases: Vec<PurchaseAnswer>, amount: u32 },
    ArchivedPurchases { purchases: Vec<PurchaseAnswer>, amount: u32 },
    UserInfo { total_payment: u128, total_tokens_bought: u128, total_tokens_received: u128 },
}

/// Payment and token transfers the contract sends.
#[derive(Clone, Debug, PartialEq, Eq)]
pub enum IdoMsg {
    /// Send `amount` uscrt from `from_address` to `to_address`.
    BankSend { from_address: String, to_address: String, amount: u128 },
    /// Move `amount` of the SNIP-20 token at `contract` from `owner` to
    /// `recipient`, by allowance.
    Snip20TransferFrom {
        owner: String,
        recipient: String,
        amount: u128,
        code_hash: String,
        contract: String,
    },
    /// Send `amount` of the SNIP-20 token at `contract` to `recipient`.
    Snip20Transfer { recipient: String, amount: u128, code_hash: String, contract: String },
}

} // verus!
