//! Messages the tier contract receives and the answers it gives.
use vstd::prelude::*;

verus! {

/// Outcome flag of a handled message.
#[derive(Clone, Copy, Debug, PartialEq, Eq)]
pub enum ResponseStatus {
    Success,
    Failure,
}

/// Whether the contract accepts deposits, withdrawals and claims.
#[derive(Clone, Copy, Debug, PartialEq, Eq)]
pub enum ContractStatus {
    Active,
    Stopped,
}

impl ContractStatus {
    /// The number by which the status is stored.
    pub open spec fn code(self) -> u8 {
        match self {
            ContractStatus::Active => 0,
            ContractStatus::Stopped => 1,
        }
    }

    /// An active contract is stored as 0, a stopped one as 1.
    pub proof fn lemma_codes()
        ensures
            ContractStatus::Active.code() == 0,
            ContractStatus::Stopped.code() == 1,
    {
    }

    /// The number by which the status is stored.
    pub fn as_u8(&self) -> (r: u8)
        ensures
            r == self.code(),
    {
        match self {
            ContractStatus::Active => 0,
            ContractStatus::Stopped => 1,
        }
    }

    /// The status stored as `status`; only 0 and 1 are statuses.
    pub fn from(status: u8) -> (r: Self)
        requires
            status <= 1,
        ensures
            r.code() == status,
    {
        if status == 0 {
            ContractStatus::Active
        } else {
            ContractStatus::Stopped
        }
    }
}

/// Instantiation parameters.
#[derive(Clone, Debug, PartialEq, Eq)]
pub struct InitMsg {
    pub admin: Option<String>,
    pub validator: String,
    /// USD deposit that each tier needs, from the best tier down.
    pub deposits: Vec<u128>,
    pub band_oracle: String,
    pub band_code_hash: String,
}

/// Messages the contract handles.
#[derive(Clone, Debug, PartialEq, Eq)]
pub enum HandleMsg {
    ChangeAdmin { admin: String, padding: Option<String> },
    ChangeStatus { status: ContractStatus, padding: Option<String> },
    Deposit { padding: Option<String> },
    Withdraw { padding: Option<String> },
    Claim {
        recipient: Option<String>,
        start: Option<u32>,
        limit: Option<u32>,
        padding: Option<String>,
    },
    WithdrawRewards { recipient: Option<String>, padding: Option<String> },
    Redelegate {
        validator_address: String,
        recipient: Option<String>,
        padding: Option<String>,
    },
}

/// Answers to handled messages.
#[derive(Clone, Debug, PartialEq, Eq)]
pub enum HandleAnswer {
    ChangeAdmin { status: ResponseStatus },
    ChangeStatus { status: ResponseStatus },
    Deposit { usd_deposit: u128, scrt_deposit: u128, tier: u8, status: ResponseStatus },
    Withdraw { status: ResponseStatus },
    Claim { amount: u128, status: ResponseStatus },
    WithdrawRewards { amount: u128, status: ResponseStatus },
    Redelegate { amount: u128, status: ResponseStatus },
}

/// Queries the contract answers.
#[derive(Clone, Debug, PartialEq, Eq)]
pub enum QueryMsg {
    Config {  },
    UserInfo { address: String },
    Withdrawals { address: String, start: Option<u32>, limit: Option<u32> },
}

/// A pending withdrawal as a query shows it.
#[derive(Clone, Debug, PartialEq, Eq)]
pub struct SerializedWithdrawals {
    pub amount: u128,
    pub claim_time: u64,
    pub timestamp: u64,
}

/// Answers to queries.
#[derive(Clone, Debug, PartialEq, Eq)]
pub enum QueryAnswer {
    Config {
        admin: String,
        validator: String,
        status: ContractStatus,
        band_oracle: String,
        band_code_hash: String,
        usd_deposits: Vec<u128>,
        min_tier: u8,
    },
    UserInfo { tier: u8, timestamp: u64, usd_deposit: u128, scrt_deposit: u128 },
    Withdrawals { amount: u32, withdrawals: Vec<SerializedWithdrawals> },
}

/// Bank and staking messages the contract sends; every amount is in uscrt.
#[derive(Clone, Debug, PartialEq, Eq)]
pub enum TierMsg {
    /// Send `amount` uscrt from `from_address` to `to_address`.
    BankSend { from_address: String, to_address: String, amount: u128 },
    /// Delegate `amount` uscrt to `validator`.
    Delegate { validator: String, amount: u128 },
    /// Undelegate `amount` uscrt from `validator`.
    Undelegate { validator: String, amount: u128 },
    /// Withdraw the staking rewards accumulated at `validator`.
    Withdraw { validator: String, recipient: Option<String> },
    /// Move `amount` uscrt of delegation from one validator to another.
    Redelegate { src_validator: String, dst_validator: String, amount: u128 },
}

} // verus!
