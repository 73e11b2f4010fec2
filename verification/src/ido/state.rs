//! What the IDO contract stores.
use vstd::prelude::*;
use crate::ido::msg::{PaymentMethod, PurchaseAnswer, QueryAnswer};

verus! {

/// The IDO contract's settings.
#[derive(Clone, Debug, PartialEq, Eq)]
pub struct Config {
    /// Canonical address of the admin.
    pub admin: Vec<u8>,
    /// `ContractStatus` code.
    pub status: u8,
    pub tier_contract: Vec<u8>,
    pub tier_contract_hash: String,
    pub nft_contract: Vec<u8>,
    pub nft_contract_hash: String,
    /// Most that a buyer may pay in one sale, by tier index (best first).
    pub max_payments: Vec<u128>,
    /// Seconds after a sale's end until tokens are released, by tier index.
    pub lock_periods: Vec<u64>,
}

impl Config {
    /// The lowest tier: one per maximal payment.
    pub open spec fn min_tier_spec(&self) -> u8 {
        self.max_payments@.len() as u8
    }

    /// With fewer than 256 maximal payments, the lowest tier is their number.
    pub proof fn lemma_min_tier(&self)
        requires
            self.max_payments@.len() < 256,
        ensures
            self.min_tier_spec() == self.max_payments@.len(),
    {
    }

    /// The lowest tier: one per maximal payment.
    pub fn min_tier(&self) -> (r: u8)
        ensures
            r == self.min_tier_spec(),
    {
        #[verifier::truncate]
        (self.max_payments.len() as u8)
    }

    /// Index of the lowest tier, the one buyers outside the whitelist get.
    pub fn min_tier_index(&self) -> (r: u8)
        requires
            self.min_tier_spec() >= 1,
        ensures
            r == self.min_tier_spec() - 1,
    {
        self.min_tier().checked_sub(1).unwrap()
    }

    /// The configuration as a query shows it, with the human forms of the
    /// stored addresses.
    pub fn to_answer(self, admin: String, tier_contract: String, nft_contract: String) -> (r:
        QueryAnswer)
        ensures
            r == (QueryAnswer::Config {
                admin,
                tier_contract,
                tier_contract_hash: self.tier_contract_hash,
                nft_contract,
                nft_contract_hash: self.nft_contract_hash,
                max_payments: self.max_payments,
                lock_periods: self.lock_periods,
            }),
    {
        QueryAnswer::Config {
            admin,
            tier_contract,
            tier_contract_hash: self.tier_contract_hash,
            nft_contract,
            nft_contract_hash: self.nft_contract_hash,
            max_payments: self.max_payments,
            lock_periods: self.lock_periods,
        }
    }
}

/// Tokens bought in one purchase, released from `unlock_time` on.
#[derive(Clone, Copy, Debug, PartialEq, Eq)]
pub struct Purchase {
    pub tokens_amount: u128,
    pub timestamp: u64,
    pub unlock_time: u64,
}

impl Purchase {
    /// The purchase as a query shows it.
    pub fn to_answer(&self) -> (r: PurchaseAnswer)
        ensures
            r == (PurchaseAnswer {
                tokens_amount: self.tokens_amount,
                timestamp: self.timestamp,
                unlock_time: self.unlock_time,
            }),
    {
        PurchaseAnswer {
            tokens_amount: self.tokens_amount,
            timestamp: self.timestamp,
            unlock_time: self.unlock_time,
        }
    }
}

impl Default for Purchase {
    fn default() -> (r: Self)
        ensures
            r == (Purchase { tokens_amount: 0, timestamp: 0, unlock_time: 0 }),
    {
        Purchase { tokens_amount: 0, timestamp: 0, unlock_time: 0 }
    }
}

/// A buyer's totals, overall or in one sale.
#[derive(Clone, Copy, Debug, PartialEq, Eq)]
pub struct UserInfo {
    pub total_payment: u128,
    pub total_tokens_bought: u128,
    pub total_tokens_received: u128,
}

impl UserInfo {
    /// The totals as a query shows them.
    pub open spec fn to_answer_spec(&self) -> QueryAnswer {
        QueryAnswer::UserInfo {
            total_payment: self.total_payment,
            total_tokens_bought: self.total_tokens_bought,
            total_tokens_received: self.total_tokens_received,
        }
    }

    /// The answer carries each stored total in the field of the same name.
    pub proof fn lemma_to_answer_fields(&self)
        ensures
            self.to_answer_spec() == (QueryAnswer::UserInfo {
                total_payment: self.total_payment,
                total_tokens_bought: self.total_tokens_bought,
                total_tokens_received: self.total_tokens_received,
            }),
    {
    }

    /// The totals as a query shows them.
    pub fn to_answer(&self) -> (r: QueryAnswer)
        ensures
            r == self.to_answer_spec(),
            r == (QueryAnswer::UserInfo {
                total_payment: self.total_payment,
                total_tokens_bought: self.total_tokens_bought,
                total_tokens_received: self.total_tokens_received,
            }),
    {
        QueryAnswer::UserInfo {
            total_payment: self.total_payment,
            total_tokens_bought: self.total_tokens_bought,
            total_tokens_received: self.total_tokens_received,
        }
    }
}

impl Default for UserInfo {
    fn default() -> (r: Self)
        ensures
            r == (UserInfo { total_payment: 0, total_tokens_bought: 0, total_tokens_received: 0 }),
    {
        UserInfo { total_payment: 0, total_tokens_bought: 0, total_tokens_received: 0 }
    }
}

/// Where a sale is written in the list of sales.
#[derive(Clone, Copy, Debug, PartialEq, Eq)]
pub enum SaveSlot {
    /// Over the stored sale with this id.
    Overwrite(u32),
    /// As a new sale at the end, which gets this id.
    Append(u32),
}

/// A token sale.
#[derive(Clone, Debug, PartialEq, Eq)]
pub struct Ido {
    /// The sale's position in the list of sales, once it is stored.
    pub id: Option<u32>,
    /// Canonical address of the sale's creator.
    pub admin: Vec<u8>,
    pub start_time: u64,
    pub end_time: u64,
    pub token_contract: Vec<u8>,
    pub token_contract_hash: String,
    /// The SNIP-20 token buyers pay with; none for uscrt.
    pub payment_token_contract: Option<Vec<u8>>,
    pub payment_token_hash: Option<String>,
    /// Payment per token.
    pub price: u128,
    pub participants: u64,
    pub sold_amount: u128,
    /// Tokens left for each tier index, when the sale splits them by tier.
    pub remaining_tokens_per_tier: Option<Vec<u128>>,
    pub total_tokens_amount: u128,
    pub total_payment: u128,
    pub withdrawn: bool,
    pub shared_whitelist: bool,
}

impl Default for Ido {
    fn default() -> (r: Self)
        ensures
            r.id is None,
            r.admin@.len() == 0,
            r.start_time == 0,
            r.end_time == 0,
            r.token_contract@.len() == 0,
            r.token_contract_hash@.len() == 0,
            r.payment_token_contract is None,
            r.payment_token_hash is None,
            r.price == 0,
            r.participants == 0,
            r.sold_amount == 0,
            r.remaining_tokens_per_tier is None,
            r.total_tokens_amount == 0,
            r.total_payment == 0,
            !r.withdrawn,
            !r.shared_whitelist,
    {
        Ido {
            id: None,
            admin: Vec::new(),
            start_time: 0,
            end_time: 0,
            token_contract: Vec::new(),
            token_contract_hash: String::new(),
            payment_token_contract: None,
            payment_token_hash: None,
            price: 0,
            participants: 0,
            sold_amount: 0,
            remaining_tokens_per_tier: None,
            total_tokens_amount: 0,
            total_payment: 0,
            withdrawn: false,
            shared_whitelist: false,
        }
    }
}

impl Ido {
    /// The sale as loaded from position `id` of the list of sales.
    pub fn loaded(self, id: u32) -> (r: Self)
        ensures
            r.id == Some(id),
            r == (Ido { id: r.id, ..self }),
    {
        Ido { id: Some(id), ..self }
    }

    /// Where to write the sale in a list of `len` sales: over itself when it
    /// is stored, else at the end, which gives it the id `len`.
    pub fn save_slot(&mut self, len: u32) -> (r: SaveSlot)
        ensures
            old(self).id matches Some(id) ==> r == SaveSlot::Overwrite(id) && *final(self)
                == *old(self),
            old(self).id is None ==> r == SaveSlot::Append(len) && final(self).id
                == Some(len) && *final(self) == (Ido { id: final(self).id, ..*old(self) }),
    {
        match self.id {
            Some(id) => SaveSlot::Overwrite(id),
            None => {
                self.id = Some(len);
                SaveSlot::Append(len)
            },
        }
    }

    /// The sale's id.
    pub fn id(&self) -> (r: u32)
        requires
            self.id is Some,
        ensures
            self.id == Some(r),
    {
        self.id.unwrap()
    }

    /// Whether the sale is stored.
    pub fn is_stored(&self) -> (r: bool)
        ensures
            r == self.id is Some,
    {
        self.id.is_some()
    }

    /// The sale runs from its start time until before its end time.
    pub open spec fn is_active_spec(&self, current_time: u64) -> bool {
        current_time >= self.start_time && current_time < self.end_time
    }

    /// Whether the sale runs at `current_time`.
    pub fn is_active(&self, current_time: u64) -> (r: bool)
        ensures
            r == self.is_active_spec(current_time),
    {
        current_time >= self.start_time && current_time < self.end_time
    }

    /// Buyers pay in uscrt when no payment token is set.
    pub open spec fn is_native_payment_spec(&self) -> bool {
        self.payment_token_contract is None && self.payment_token_hash is None
    }

    /// Whether buyers pay in uscrt.
    pub fn is_native_payment(&self) -> (r: bool)
        ensures
            r == self.is_native_payment_spec(),
    {
        self.payment_token_contract.is_none() && self.payment_token_hash.is_none()
    }

    /// Tokens not sold yet.
    pub open spec fn remaining_amount_spec(&self) -> int {
        self.total_tokens_amount - self.sold_amount
    }

    /// Tokens not sold yet.
    pub fn remaining_amount(&self) -> (r: u128)
        requires
            self.sold_amount <= self.total_tokens_amount,
        ensures
            r == self.remaining_amount_spec(),
    {
        self.total_tokens_amount.checked_sub(self.sold_amount).unwrap()
    }

    /// Tokens a buyer of tier index `tier` can still get: those left for the
    /// tier when the sale splits tokens by tier, else all unsold ones.
    pub open spec fn remaining_for_tier(&self, tier: u8) -> int {
        match self.remaining_tokens_per_tier {
            Some(v) => v@[tier as int] as int,
            None => self.remaining_amount_spec(),
        }
    }

    /// A sale runs from its start time until before its end time; it is
    /// paid in uscrt when it names no payment token; the tokens not sold are
    /// the tokens for sale less those sold; a buyer of tier index `tier`
    /// can get what is left for the tier when the sale splits its tokens by
    /// tier, and all unsold tokens otherwise.
    pub proof fn lemma_sale_state(&self, time: u64, tier: u8)
        ensures
            self.is_active_spec(time) <==> (self.start_time <= time && time < self.end_time),
            self.is_native_payment_spec() <==> (self.payment_token_contract is None
                && self.payment_token_hash is None),
            self.remaining_amount_spec() == self.total_tokens_amount - self.sold_amount,
            self.remaining_tokens_per_tier matches Some(v) ==> self.remaining_for_tier(tier)
                == v@[tier as int],
            self.remaining_tokens_per_tier is None ==> self.remaining_for_tier(tier)
                == self.total_tokens_amount - self.sold_amount,
    {
    }

    /// Tokens a buyer of tier index `tier` can still get.
    pub fn remaining_tokens_per_tier(&self, tier: u8) -> (r: u128)
        requires
            self.remaining_tokens_per_tier matches Some(v) ==> tier < v@.len(),
            self.remaining_tokens_per_tier is None ==> self.sold_amount <= self.total_tokens_amount,
        ensures
            r == self.remaining_for_tier(tier),
    {
        match &self.remaining_tokens_per_tier {
            Some(tokens_per_tier) => tokens_per_tier[tier as usize],
            None => self.remaining_amount(),
        }
    }

    /// The sale as a query shows it, with the human forms of the stored
    /// addresses (`payment_contract` for the payment token, when there is
    /// one).
    pub fn to_answer(
        self,
        admin: String,
        token_contract: String,
        payment_contract: Option<String>,
    ) -> (r: QueryAnswer)
        requires
            !self.is_native_payment_spec() ==> payment_contract is Some
                && self.payment_token_hash is Some,
        ensures
            r == (QueryAnswer::IdoInfo {
                admin,
                start_time: self.start_time,
                end_time: self.end_time,
                token_contract,
                token_contract_hash: self.token_contract_hash,
                price: self.price,
                participants: self.participants,
                payment: if self.is_native_payment_spec() {
                    PaymentMethod::Native
                } else {
                    PaymentMethod::Token {
                        contract: payment_contract->0,
                        code_hash: self.payment_token_hash->0,
                    }
                },
                sold_amount: self.sold_amount,
                total_tokens_amount: self.total_tokens_amount,
                total_payment: self.total_payment,
                withdrawn: self.withdrawn,
                shared_whitelist: self.shared_whitelist,
            }),
    {
        let payment = if self.is_native_payment() {
            PaymentMethod::Native
        } else {
            PaymentMethod::Token {
                contract: payment_contract.unwrap(),
                code_hash: self.payment_token_hash.unwrap(),
            }
        };
        QueryAnswer::IdoInfo {
            admin,
            start_time: self.start_time,
            end_time: self.end_time,
            token_contract,
            token_contract_hash: self.token_contract_hash,
            price: self.price,
            payment,
            participants: self.participants,
            sold_amount: self.sold_amount,
            total_tokens_amount: self.total_tokens_amount,
            total_payment: self.total_payment,
            withdrawn: self.withdrawn,
            shared_whitelist: self.shared_whitelist,
        }
    }
}

} // verus!
