//! What the tier contract stores, and the arithmetic of tiers.
use vstd::prelude::*;
use crate::error::ContractError;
use crate::tier::msg::{ContractStatus, QueryAnswer, SerializedWithdrawals};

verus! {

/// Index of the first element of `s` that is at most `x`, or `s.len()`.
pub open spec fn first_at_most(s: Seq<u128>, x: u128) -> nat
    decreases s.len(),
{
    if s.len() == 0 {
        0
    } else if s[0] <= x {
        0
    } else {
        1 + first_at_most(s.drop_first(), x)
    }
}

/// `first_at_most` is the one index before which every element exceeds `x`
/// and at which the element, if any, is at most `x`.
pub proof fn lemma_first_at_most(s: Seq<u128>, x: u128)
    ensures
        first_at_most(s, x) <= s.len(),
        forall|j: int| 0 <= j < first_at_most(s, x) ==> s[j] > x,
        first_at_most(s, x) < s.len() ==> s[first_at_most(s, x) as int] <= x,
    decreases s.len(),
{
    if s.len() > 0 && s[0] > x {
        lemma_first_at_most(s.drop_first(), x);
        assert forall|j: int| 0 <= j < first_at_most(s, x) implies s[j] > x by {
            if j > 0 {
                assert(s[j] == s.drop_first()[j - 1]);
            }
        }
    }
}

/// The index characterized in `lemma_first_at_most` is unique.
pub proof fn lemma_first_at_most_is(s: Seq<u128>, x: u128, k: int)
    requires
        0 <= k <= s.len(),
        forall|j: int| 0 <= j < k ==> s[j] > x,
        k < s.len() ==> s[k] <= x,
    ensures
        first_at_most(s, x) == k,
    decreases s.len(),
{
    if s.len() > 0 && k > 0 {
        assert forall|j: int| 0 <= j < k - 1 implies s.drop_first()[j] > x by {
            assert(s.drop_first()[j] == s[j + 1]);
        }
        lemma_first_at_most_is(s.drop_first(), x, k - 1);
    }
}

/// Each element of `s` is larger than the next one.
pub open spec fn strictly_decreasing(s: Seq<u128>) -> bool {
    forall|i: int| 0 <= i < s.len() - 1 ==> #[trigger] s[i] > s[i + 1]
}

/// In a strictly decreasing sequence every element is larger than all that
/// follow it.
pub proof fn lemma_strictly_decreasing(s: Seq<u128>, i: int, j: int)
    requires
        strictly_decreasing(s),
        0 <= i < j < s.len(),
    ensures
        s[i] > s[j],
    decreases j - i,
{
    if j > i + 1 {
        lemma_strictly_decreasing(s, i, j - 1);
        assert(s[j - 1] > s[j]);
    } else {
        assert(s[i] > s[i + 1]);
    }
}

/// Tiers run from 1, the best, to `min_tier`; a USD deposit reaches tier
/// `t` or a better one exactly when it covers the deposit that `t` needs.
pub proof fn lemma_tier_threshold(config: &Config, usd: u128, t: int)
    requires
        config.wf(),
        1 <= t <= config.usd_deposits@.len(),
    ensures
        1 <= config.tier_by_deposit_spec(usd) <= config.min_tier_spec(),
        config.tier_by_deposit_spec(usd) <= t <==> usd >= config.usd_deposits@[t - 1],
{
    let d = config.usd_deposits@;
    lemma_first_at_most(d, usd);
    let f = first_at_most(d, usd);
    if f <= t - 1 {
        if f < t - 1 {
            lemma_strictly_decreasing(d, f as int, t - 1);
        }
    } else {
        assert(d[t - 1] > usd);
    }
}

/// A larger USD deposit never reaches a worse tier.
pub proof fn lemma_tier_by_deposit_monotone(config: &Config, a: u128, b: u128)
    requires
        config.wf(),
        a <= b,
    ensures
        config.tier_by_deposit_spec(b) <= config.tier_by_deposit_spec(a),
{
    let d = config.usd_deposits@;
    lemma_first_at_most(d, a);
    lemma_first_at_most(d, b);
    if first_at_most(d, a) < d.len() {
        assert(d[first_at_most(d, a) as int] <= b);
    }
}

/// The tier contract's settings.
#[derive(Clone, Debug, PartialEq, Eq)]
pub struct Config {
    /// Canonical address of the admin.
    pub admin: Vec<u8>,
    pub validator: String,
    /// `ContractStatus` code.
    pub status: u8,
    pub band_oracle: String,
    pub band_code_hash: String,
    /// USD deposit that each tier needs; tier `t` needs `usd_deposits[t - 1]`.
    pub usd_deposits: Vec<u128>,
}

impl Config {
    /// A configuration the contract can be in: at least one tier, at most
    /// 254 so that tiers fit in a byte, deposits strictly decreasing, and a
    /// valid status.
    pub open spec fn wf(&self) -> bool {
        &&& 1 <= self.usd_deposits@.len() <= 254
        &&& strictly_decreasing(self.usd_deposits@)
        &&& self.status <= 1
    }

    /// Whether the configuration is one the contract can be in (`wf`).
    pub fn is_wf(&self) -> (r: bool)
        ensures
            r == self.wf(),
    {
        let n = self.usd_deposits.len();
        1 <= n && n <= 254 && crate::common::is_strictly_decreasing(&self.usd_deposits)
            && self.status <= 1
    }

    /// The tier of a user who deposited nothing: one below the last tier.
    pub open spec fn min_tier_spec(&self) -> u8 {
        (self.usd_deposits@.len() + 1) as u8
    }

    /// With at most 254 tiers, a user without deposit is one below the last.
    pub proof fn lemma_min_tier(&self)
        requires
            self.usd_deposits@.len() <= 254,
        ensures
            self.min_tier_spec() == self.usd_deposits@.len() + 1,
    {
    }

    /// The tier that a USD deposit of `usd` reaches.
    pub open spec fn tier_by_deposit_spec(&self, usd: u128) -> u8 {
        (first_at_most(self.usd_deposits@, usd) + 1) as u8
    }

    /// The tier of a user who deposited nothing: one below the last tier.
    pub fn min_tier(&self) -> (r: u8)
        requires
            self.usd_deposits@.len() < usize::MAX,
        ensures
            r == self.min_tier_spec(),
    {
        #[verifier::truncate] ((self.usd_deposits.len().checked_add(1).unwrap()) as u8)
    }

    /// The best tier.
    pub fn max_tier(&self) -> (r: u8)
        ensures
            r == 1,
    {
        1
    }

    /// The USD deposit that `tier` needs.
    pub fn deposit_by_tier(&self, tier: u8) -> (r: u128)
        requires
            1 <= tier <= self.usd_deposits@.len(),
        ensures
            r == self.usd_deposits@[tier - 1],
    {
        let tier_index = tier.checked_sub(1).unwrap();
        self.usd_deposits[tier_index as usize]
    }

    /// The best tier whose deposit `usd_deposit` covers: one more than the
    /// index of the first deposit at most `usd_deposit`, or `min_tier` when
    /// it covers none.
    pub fn tier_by_deposit(&self, usd_deposit: u128) -> (r: u8)
        requires
            self.usd_deposits@.len() < usize::MAX,
        ensures
            r == self.tier_by_deposit_spec(usd_deposit),
    {
        let mut i: usize = 0;
        while i < self.usd_deposits.len()
            invariant
                i <= self.usd_deposits@.len(),
                forall|j: int| 0 <= j < i ==> self.usd_deposits@[j] > usd_deposit,
            ensures
                i <= self.usd_deposits@.len(),
                forall|j: int| 0 <= j < i ==> self.usd_deposits@[j] > usd_deposit,
                i < self.usd_deposits@.len() ==> self.usd_deposits@[i as int] <= usd_deposit,
            decreases self.usd_deposits@.len() - i,
        {
            if self.usd_deposits[i] <= usd_deposit {
                break;
            }
            i = i + 1;
        }
        proof {
            lemma_first_at_most_is(self.usd_deposits@, usd_deposit, i as int);
        }
        #[verifier::truncate] ((i.checked_add(1).unwrap()) as u8)
    }

    /// Refuses every action while the contract is stopped.
    pub fn assert_contract_active(&self) -> (r: Result<(), ContractError>)
        ensures
            self.status == ContractStatus::Active.code() ==> r is Ok,
            self.status != ContractStatus::Active.code() ==> r == Err::<(), ContractError>(
                ContractError::ContractNotActive,
            ),
    {
        let active = ContractStatus::Active.as_u8();
        if self.status != active {
            return Err(ContractError::ContractNotActive);
        }
        Ok(())
    }

    /// The configuration as a query shows it; `admin` is the human form of
    /// the stored admin address.
    pub fn to_answer(&self, admin: String) -> (r: QueryAnswer)
        requires
            self.status <= 1,
            self.usd_deposits@.len() < usize::MAX,
        ensures
            r matches QueryAnswer::Config {
                admin: a,
                validator,
                status,
                band_oracle,
                band_code_hash,
                usd_deposits,
                min_tier,
            } && a == admin && validator == self.validator && status.code() == self.status
                && band_oracle == self.band_oracle && band_code_hash == self.band_code_hash
                && usd_deposits@ == self.usd_deposits@ && min_tier == self.min_tier_spec(),
    {
        QueryAnswer::Config {
            admin,
            min_tier: self.min_tier(),
            validator: self.validator.clone(),
            status: ContractStatus::from(self.status),
            band_oracle: self.band_oracle.clone(),
            band_code_hash: self.band_code_hash.clone(),
            usd_deposits: self.usd_deposits.clone(),
        }
    }
}

/// What the contract keeps of a depositor.
#[derive(Clone, Copy, Debug, PartialEq, Eq)]
pub struct UserInfo {
    pub tier: u8,
    pub timestamp: u64,
    pub usd_deposit: u128,
    pub scrt_deposit: u128,
}

impl UserInfo {
    /// A user in `tier` who has deposited nothing.
    pub fn with_tier(tier: u8) -> (r: Self)
        ensures
            r == (UserInfo { tier, timestamp: 0, usd_deposit: 0, scrt_deposit: 0 }),
    {
        UserInfo { tier, timestamp: 0, usd_deposit: 0, scrt_deposit: 0 }
    }

    /// The user as a query shows it.
    pub fn to_answer(&self) -> (r: QueryAnswer)
        ensures
            r == (QueryAnswer::UserInfo {
                tier: self.tier,
                timestamp: self.timestamp,
                usd_deposit: self.usd_deposit,
                scrt_deposit: self.scrt_deposit,
            }),
    {
        QueryAnswer::UserInfo {
            tier: self.tier,
            timestamp: self.timestamp,
            usd_deposit: self.usd_deposit,
            scrt_deposit: self.scrt_deposit,
        }
    }
}

impl Default for UserInfo {
    fn default() -> (r: Self)
        ensures
            r == (UserInfo { tier: 0, timestamp: 0, usd_deposit: 0, scrt_deposit: 0 }),
    {
        UserInfo { tier: 0, timestamp: 0, usd_deposit: 0, scrt_deposit: 0 }
    }
}

/// An amount undelegated by a user, claimable from `claim_time` on.
#[derive(Clone, Copy, Debug, PartialEq, Eq)]
pub struct UserWithdrawal {
    pub amount: u128,
    pub claim_time: u64,
    pub timestamp: u64,
}

impl UserWithdrawal {
    /// The withdrawal as a query shows it.
    pub fn to_serialized(&self) -> (r: SerializedWithdrawals)
        ensures
            r == (SerializedWithdrawals {
                amount: self.amount,
                claim_time: self.claim_time,
                timestamp: self.timestamp,
            }),
    {
        SerializedWithdrawals {
            amount: self.amount,
            claim_time: self.claim_time,
            timestamp: self.timestamp,
        }
    }
}

} // verus!
