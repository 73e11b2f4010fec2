//! The tier contract's handlers, from the values read in storage and in the
//! message to the values to store and the messages to send.
use vstd::prelude::*;
use crate::common::{
    all_uscrt, lemma_sum_amounts_nonneg, page, page_of, sum_amounts, uscrt_prefix_fits, window, Coin,
};
use crate::error::ContractError;
use crate::seqs::{
    as_ints, lemma_remove_at_indices, lemma_remove_selected, lemma_selected_indices, removable,
    removed, selected_indices, shifted_positions, unselected,
};
use crate::tier::band::{BandProtocol, ONE_USD, lemma_uscrt_round_trip};
use crate::tier::utils::{get_deposit, FullDelegation};
use crate::tier::msg::{
    ContractStatus, HandleAnswer, InitMsg, QueryAnswer, ResponseStatus, SerializedWithdrawals, TierMsg,
};
use crate::tier::state::{
    Config, UserInfo, UserWithdrawal, first_at_most, lemma_first_at_most, lemma_strictly_decreasing,
    lemma_tier_threshold, strictly_decreasing,
};

verus! {

/// Size to which answers are padded.
pub const BLOCK_SIZE: usize = 256;

/// Seconds between an undelegation and the moment its uscrt can be claimed.
pub const UNBOUND_LATENCY: u64 = 21 * 24 * 60 * 60;

/// Tier deposits the contract can be instantiated with: at least one, each
/// larger than the next.
pub fn validate_init(msg: &InitMsg) -> (r: Result<(), ContractError>)
    ensures
        msg.deposits@.len() == 0 ==> r == Err::<(), ContractError>(ContractError::DepositsEmpty),
        msg.deposits@.len() > 0 && !strictly_decreasing(msg.deposits@) ==> r == Err::<
            (),
            ContractError,
        >(ContractError::DepositsNotDecreasing),
        msg.deposits@.len() > 0 && strictly_decreasing(msg.deposits@) ==> r is Ok,
{
    if msg.deposits.len() == 0 {
        return Err(ContractError::DepositsEmpty);
    }
    if !crate::common::is_strictly_decreasing(&msg.deposits) {
        return Err(ContractError::DepositsNotDecreasing);
    }
    Ok(())
}

/// The address that becomes admin: the one named in the message, or else
/// the sender.
pub fn init_admin(msg: &InitMsg, sender: &String) -> (r: String)
    ensures
        msg.admin matches Some(a) ==> r == a,
        msg.admin is None ==> r == *sender,
{
    match &msg.admin {
        Some(a) => a.clone(),
        None => sender.clone(),
    }
}

/// The configuration the contract starts with: active, with `admin` (the
/// canonical form of `init_admin`) and the message's settings.
pub fn init(msg: InitMsg, admin: Vec<u8>) -> (r: Result<Config, ContractError>)
    ensures
        msg.deposits@.len() == 0 ==> r == Err::<Config, ContractError>(ContractError::DepositsEmpty),
        msg.deposits@.len() > 0 && !strictly_decreasing(msg.deposits@) ==> r == Err::<
            Config,
            ContractError,
        >(ContractError::DepositsNotDecreasing),
        msg.deposits@.len() > 0 && strictly_decreasing(msg.deposits@) ==> r == Ok::<
            Config,
            ContractError,
        >(
            Config {
                admin,
                validator: msg.validator,
                status: ContractStatus::Active.code(),
                band_oracle: msg.band_oracle,
                band_code_hash: msg.band_code_hash,
                usd_deposits: msg.deposits,
            },
        ),
        // the contract starts in a configuration it can be in, as long as its
        // tiers fit in a byte
        msg.deposits@.len() <= 254 ==> (r matches Ok(c) ==> c.wf()),
{
    validate_init(&msg)?;
    Ok(
        Config {
            status: ContractStatus::Active.as_u8(),
            admin,
            validator: msg.validator,
            usd_deposits: msg.deposits,
            band_oracle: msg.band_oracle,
            band_code_hash: msg.band_code_hash,
        },
    )
}

/// A stored user agrees with the configuration: either a user without
/// deposit in the lowest tier, or a user in a tier whose deposit is exactly
/// the one recorded.
pub open spec fn user_wf(config: &Config, u: UserInfo) -> bool {
    ||| (u.tier == config.min_tier_spec() && u.usd_deposit == 0)
    ||| (1 <= u.tier <= config.usd_deposits@.len() && u.usd_deposit
        == config.usd_deposits@[u.tier - 1])
}

/// Whether a stored user agrees with the configuration (`user_wf`).
pub fn user_wf_check(config: &Config, u: &UserInfo) -> (r: bool)
    requires
        config.usd_deposits@.len() < usize::MAX,
    ensures
        r == user_wf(config, *u),
{
    let min_tier = config.min_tier();
    (u.tier == min_tier && u.usd_deposit == 0) || (1 <= u.tier && (u.tier as usize)
        <= config.usd_deposits.len() && u.usd_deposit == config.usd_deposits[(u.tier - 1) as usize])
}

/// The user as stored, or a user without deposit in the lowest tier.
pub open spec fn stored_or_new(config: &Config, user: Option<UserInfo>) -> UserInfo {
    match user {
        Some(u) => u,
        None => UserInfo { tier: config.min_tier_spec(), timestamp: 0, usd_deposit: 0, scrt_deposit: 0 },
    }
}

/// An absent user is one without deposit in the lowest tier; a stored one
/// is taken as stored.
pub proof fn lemma_stored_or_new(config: &Config, user: Option<UserInfo>)
    ensures
        user matches Some(u) ==> stored_or_new(config, user) == u,
        user is None ==> stored_or_new(config, user) == (UserInfo {
            tier: config.min_tier_spec(),
            timestamp: 0,
            usd_deposit: 0,
            scrt_deposit: 0,
        }),
{
}

/// USD value of the user's deposit once `scrt` uscrt are added.
pub open spec fn deposit_new_usd(
    config: &Config,
    user: Option<UserInfo>,
    scrt: u128,
    band: &BandProtocol,
) -> int {
    stored_or_new(config, user).usd_deposit + band.usd_of(scrt as int)
}

/// Tier that the user's deposit reaches once `scrt` uscrt are added.
pub open spec fn deposit_new_tier(
    config: &Config,
    user: Option<UserInfo>,
    scrt: u128,
    band: &BandProtocol,
) -> u8 {
    config.tier_by_deposit_spec(deposit_new_usd(config, user, scrt, band) as u128)
}

/// USD above the deposit of the reached tier, which is sent back.
pub open spec fn deposit_usd_refund(
    config: &Config,
    user: Option<UserInfo>,
    scrt: u128,
    band: &BandProtocol,
) -> int {
    deposit_new_usd(config, user, scrt, band) - config.usd_deposits@[deposit_new_tier(
        config,
        user,
        scrt,
        band,
    ) - 1]
}

/// uscrt sent back: the worth of `deposit_usd_refund`.
pub open spec fn deposit_scrt_refund(
    config: &Config,
    user: Option<UserInfo>,
    scrt: u128,
    band: &BandProtocol,
) -> int {
    band.uscrt_of(deposit_usd_refund(config, user, scrt, band))
}

/// USD the user still needs for the next tier when a deposit falls short.
pub open spec fn deposit_shortfall(config: &Config, user: Option<UserInfo>) -> int {
    let old = stored_or_new(config, user);
    config.usd_deposits@[old.tier - 2] - old.usd_deposit
}

/// The deposit's arithmetic stays within `u128` (the contract aborts
/// otherwise), and the rate is positive wherever it divides.
pub open spec fn deposit_fits(
    config: &Config,
    user: Option<UserInfo>,
    scrt: u128,
    band: &BandProtocol,
) -> bool {
    let old = stored_or_new(config, user);
    let new_tier = deposit_new_tier(config, user, scrt, band);
    &&& scrt * band.rate() <= u128::MAX
    &&& deposit_new_usd(config, user, scrt, band) <= u128::MAX
    &&& (new_tier == old.tier && old.tier != 1) ==> band.rate() > 0 && deposit_shortfall(
        config,
        user,
    ) * ONE_USD <= u128::MAX
    &&& new_tier != old.tier ==> {
        &&& band.rate() > 0
        &&& deposit_usd_refund(config, user, scrt, band) * ONE_USD <= u128::MAX
        &&& old.scrt_deposit + (scrt - deposit_scrt_refund(config, user, scrt, band))
            <= u128::MAX
    }
}

/// What a deposit stores and sends.
#[derive(Clone, Debug, PartialEq, Eq)]
pub struct DepositOutcome {
    /// The user to store.
    pub user_info: UserInfo,
    /// Refund of the uscrt above the reached tier (when not zero), then
    /// delegation of the rest.
    pub messages: Vec<TierMsg>,
    pub answer: HandleAnswer,
}

/// Facts of tier arithmetic that a deposit relies on.
proof fn lemma_deposit_tiers(config: &Config, old: UserInfo, new_usd: u128)
    requires
        config.wf(),
        user_wf(config, old),
        old.usd_deposit <= new_usd,
    ensures
        ({
            let nt = config.tier_by_deposit_spec(new_usd);
            let d = config.usd_deposits@;
            &&& 1 <= nt <= d.len() + 1
            &&& nt == first_at_most(d, new_usd) + 1
            &&& nt <= old.tier
            &&& nt != old.tier ==> nt <= d.len() && d[nt - 1] <= new_usd && old.usd_deposit
                <= d[nt - 1]
            &&& (nt == old.tier && old.tier != 1) ==> 2 <= old.tier <= d.len() + 1 && old.usd_deposit
                <= d[old.tier - 2]
        }),
{
    let d = config.usd_deposits@;
    let n = d.len();
    lemma_first_at_most(d, new_usd);
    let f = first_at_most(d, new_usd);
    assert(f <= n);
    assert(config.tier_by_deposit_spec(new_usd) == f + 1);
    let nt = f + 1;
    if 1 <= old.tier <= n && old.usd_deposit == d[old.tier - 1] {
        // the old tier's deposit is covered, so the new tier is no worse
        if f > old.tier - 1 {
            assert(d[old.tier - 1] > new_usd);
        }
        assert(f <= old.tier - 1);
        if nt != old.tier {
            assert(nt < old.tier);
            lemma_strictly_decreasing(d, nt - 1, old.tier - 1);
        }
        if old.tier >= 2 {
            lemma_strictly_decreasing(d, old.tier - 2, old.tier - 1);
        }
    } else {
        assert(old.tier == n + 1 && old.usd_deposit == 0);
    }
}

/// Adds `scrt_deposit` uscrt to the sender's deposit. The user, as stored or
/// else without deposit in the lowest tier, moves to the tier that the new
/// USD total reaches; the USD above that tier's deposit is sent back in
/// uscrt and the rest is delegated. A deposit that reaches no better tier
/// is refused, with what the next tier needs.
pub fn try_deposit(
    config: &Config,
    user: Option<UserInfo>,
    scrt_deposit: u128,
    band: &BandProtocol,
    time: u64,
    sender: &String,
    contract: &String,
) -> (r: Result<DepositOutcome, ContractError>)
    requires
        config.wf(),
        user matches Some(u) ==> user_wf(config, u),
        deposit_fits(config, user, scrt_deposit, band),
    ensures
        ({
            let old = stored_or_new(config, user);
            let new_tier = deposit_new_tier(config, user, scrt_deposit, band);
            let refund = deposit_scrt_refund(config, user, scrt_deposit, band);
            let delegated = scrt_deposit - refund;
            let tier_deposit = config.usd_deposits@[new_tier - 1];
            &&& (new_tier == old.tier && old.tier == 1) ==> r == Err::<
                DepositOutcome,
                ContractError,
            >(ContractError::ReachedMaxTier)
            &&& (new_tier == old.tier && old.tier != 1) ==> r == Err::<
                DepositOutcome,
                ContractError,
            >(
                ContractError::DepositTooSmall {
                    usd: deposit_shortfall(config, user) as u128,
                    uscrt: band.uscrt_of(deposit_shortfall(config, user)) as u128,
                },
            )
            &&& new_tier != old.tier ==> (r matches Ok(o) && {
                &&& o.user_info == UserInfo {
                    tier: new_tier,
                    timestamp: time,
                    usd_deposit: tier_deposit,
                    scrt_deposit: (old.scrt_deposit + delegated) as u128,
                }
                &&& o.messages@ == if refund != 0 {
                    seq![
                        TierMsg::BankSend {
                            from_address: *contract,
                            to_address: *sender,
                            amount: refund as u128,
                        },
                        TierMsg::Delegate {
                            validator: config.validator,
                            amount: delegated as u128,
                        },
                    ]
                } else {
                    seq![
                        TierMsg::Delegate {
                            validator: config.validator,
                            amount: delegated as u128,
                        },
                    ]
                }
                &&& o.answer == HandleAnswer::Deposit {
                    usd_deposit: tier_deposit,
                    scrt_deposit: (old.scrt_deposit + delegated) as u128,
                    tier: new_tier,
                    status: ResponseStatus::Success,
                }
                // the tier improves, and the stored user stays consistent
                &&& o.user_info.tier < old.tier
                &&& user_wf(config, o.user_info)
                // what is sent back and what is delegated make up the deposit
                &&& 0 <= refund <= scrt_deposit
            })
        }),
        // in terms of the inputs alone: the USD value of the deposit is added
        // to the user's; the deposit is taken exactly when that total covers
        // the tier above the user's, and the user then gets the best tier the
        // total covers, with that tier's deposit, while the USD above it goes
        // back in uscrt and the rest is delegated
        ({
            let d = config.usd_deposits@;
            let old_tier: int = match user {
                Some(u) => u.tier as int,
                None => d.len() + 1int,
            };
            let old_usd: int = match user {
                Some(u) => u.usd_deposit as int,
                None => 0,
            };
            let old_scrt: int = match user {
                Some(u) => u.scrt_deposit as int,
                None => 0,
            };
            let total = old_usd + (scrt_deposit * band.rate()) / (ONE_USD as int);
            &&& !(old_tier >= 2 && d[old_tier - 2] <= total) ==> r is Err
            &&& (old_tier >= 2 && d[old_tier - 2] <= total) ==> (r matches Ok(o) && {
                let t = o.user_info.tier as int;
                let back = ((total - d[t - 1]) * ONE_USD) / (band.rate() as int);
                &&& 1 <= t < old_tier
                &&& d[t - 1] <= total
                &&& forall|u: int| 1 <= u < t ==> #[trigger] d[u - 1] > total
                &&& o.user_info.usd_deposit == d[t - 1]
                &&& o.user_info.timestamp == time
                &&& o.user_info.scrt_deposit == old_scrt + scrt_deposit - back
                &&& o.messages@.last() == TierMsg::Delegate {
                    validator: config.validator,
                    amount: (scrt_deposit - back) as u128,
                }
                &&& (back != 0 <==> o.messages@.len() == 2)
                &&& back != 0 ==> o.messages@[0] == TierMsg::BankSend {
                    from_address: *contract,
                    to_address: *sender,
                    amount: back as u128,
                }
            })
        }),
{
    let ghost old = stored_or_new(config, user);
    let mut scrt_deposit = scrt_deposit;
    let usd_deposit = band.usd_amount(scrt_deposit);
    let min_tier = config.min_tier();
    let mut user_info = match user {
        Some(u) => u,
        None => UserInfo::with_tier(min_tier),
    };
    assert(user_info == old);
    assert(user_wf(config, old));
    let current_tier = user_info.tier;
    let old_usd_deposit = user_info.usd_deposit;
    let new_usd_deposit = old_usd_deposit.checked_add(usd_deposit).unwrap();
    let new_tier = config.tier_by_deposit(new_usd_deposit);
    proof {
        lemma_deposit_tiers(config, old, new_usd_deposit);
        lemma_first_at_most(config.usd_deposits@, new_usd_deposit);
        if old.tier >= 2 {
            lemma_tier_threshold(config, new_usd_deposit, old.tier - 1);
        }
    }
    if current_tier == new_tier {
        if current_tier == config.max_tier() {
            return Err(ContractError::ReachedMaxTier);
        }
        let next_tier = current_tier.checked_sub(1).unwrap();
        let next_tier_deposit = config.deposit_by_tier(next_tier);
        let expected_deposit_usd = next_tier_deposit.checked_sub(old_usd_deposit).unwrap();
        let expected_deposit_scrt = band.uscrt_amount(expected_deposit_usd);
        return Err(
            ContractError::DepositTooSmall { usd: expected_deposit_usd, uscrt: expected_deposit_scrt },
        );
    }
    let mut messages: Vec<TierMsg> = Vec::new();
    let new_tier_deposit = config.deposit_by_tier(new_tier);
    let usd_refund = new_usd_deposit.checked_sub(new_tier_deposit).unwrap();
    let scrt_refund = band.uscrt_amount(usd_refund);
    proof {
        // the refund is worth no more than the deposit
        assert(usd_refund <= usd_deposit);
        lemma_uscrt_of_monotone(*band, usd_refund as int, usd_deposit as int);
        lemma_uscrt_round_trip(*band, scrt_deposit);
    }
    if scrt_refund != 0 {
        scrt_deposit = scrt_deposit.checked_sub(scrt_refund).unwrap();
        messages.push(
            TierMsg::BankSend {
                from_address: contract.clone(),
                to_address: sender.clone(),
                amount: scrt_refund,
            },
        );
    }
    user_info.tier = new_tier;
    user_info.timestamp = time;
    user_info.usd_deposit = new_tier_deposit;
    user_info.scrt_deposit = user_info.scrt_deposit.checked_add(scrt_deposit).unwrap();
    messages.push(TierMsg::Delegate { validator: config.validator.clone(), amount: scrt_deposit });
    let answer = HandleAnswer::Deposit {
        usd_deposit: user_info.usd_deposit,
        scrt_deposit: user_info.scrt_deposit,
        tier: new_tier,
        status: ResponseStatus::Success,
    };
    Ok(DepositOutcome { user_info, messages, answer })
}

/// Whether a deposit of `scrt_deposit` uscrt stays within the arithmetic
/// that `try_deposit` requires (`deposit_fits`).
pub fn deposit_fits_check(
    config: &Config,
    user: Option<UserInfo>,
    scrt_deposit: u128,
    band: &BandProtocol,
) -> (r: bool)
    requires
        config.wf(),
        user matches Some(u) ==> user_wf(config, u),
    ensures
        r == deposit_fits(config, user, scrt_deposit, band),
{
    let ghost old = stored_or_new(config, user);
    let min_tier = config.min_tier();
    let user_info = match user {
        Some(u) => u,
        None => UserInfo::with_tier(min_tier),
    };
    assert(user_info == old);
    let rate = band.scrt_per_usd();
    if scrt_deposit.checked_mul(rate).is_none() {
        return false;
    }
    let usd_deposit = band.usd_amount(scrt_deposit);
    let new_usd_deposit = match user_info.usd_deposit.checked_add(usd_deposit) {
        Some(v) => v,
        None => {
            return false;
        },
    };
    let new_tier = config.tier_by_deposit(new_usd_deposit);
    proof {
        lemma_deposit_tiers(config, old, new_usd_deposit);
    }
    if new_tier == user_info.tier {
        if user_info.tier == 1 {
            return true;
        }
        if rate == 0 {
            return false;
        }
        let shortfall = config.usd_deposits[(user_info.tier - 2) as usize] - user_info.usd_deposit;
        return shortfall.checked_mul(ONE_USD).is_some();
    }
    if rate == 0 {
        return false;
    }
    let usd_refund = new_usd_deposit - config.usd_deposits[(new_tier - 1) as usize];
    if usd_refund.checked_mul(ONE_USD).is_none() {
        return false;
    }
    let scrt_refund = band.uscrt_amount(usd_refund);
    proof {
        assert(usd_refund <= usd_deposit);
        lemma_uscrt_of_monotone(*band, usd_refund as int, usd_deposit as int);
        lemma_uscrt_round_trip(*band, scrt_deposit);
    }
    user_info.scrt_deposit.checked_add(scrt_deposit - scrt_refund).is_some()
}

/// `uscrt_of` never decreases as the USD amount grows.
pub proof fn lemma_uscrt_of_monotone(band: BandProtocol, a: int, b: int)
    requires
        band.rate() > 0,
        0 <= a <= b,
    ensures
        band.uscrt_of(a) <= band.uscrt_of(b),
{
    let r = band.rate() as int;
    let o = ONE_USD as int;
    assert(a * o <= b * o) by (nonlinear_arith)
        requires
            0 <= a <= b,
            o > 0,
    ;
    assert((a * o) / r <= (b * o) / r) by (nonlinear_arith)
        requires
            a * o <= b * o,
            r > 0,
    ;
}

} // verus!

verus! {

/// The uscrt sent with a deposit, once the contract is known to be active:
/// only uscrt is accepted, and not zero of it.
pub fn deposit_amount(config: &Config, sent_funds: &Vec<Coin>) -> (r: Result<u128, ContractError>)
    requires
        uscrt_prefix_fits(sent_funds@),
    ensures
        config.status != ContractStatus::Active.code() ==> r == Err::<u128, ContractError>(
            ContractError::ContractNotActive,
        ),
        config.status == ContractStatus::Active.code() && !all_uscrt(sent_funds@) ==> r == Err::<
            u128,
            ContractError,
        >(ContractError::UnsupportedToken),
        config.status == ContractStatus::Active.code() && all_uscrt(sent_funds@) && sum_amounts(
            sent_funds@,
        ) == 0 ==> r == Err::<u128, ContractError>(ContractError::DepositZero),
        config.status == ContractStatus::Active.code() && all_uscrt(sent_funds@) && sum_amounts(
            sent_funds@,
        ) != 0 ==> r == Ok::<u128, ContractError>(sum_amounts(sent_funds@) as u128),
{
    config.assert_contract_active()?;
    assert(sent_funds@.take(sent_funds@.len() as int) =~= sent_funds@);
    proof {
        if all_uscrt(sent_funds@) {
            let k = sent_funds@.len() as int;
            assert(all_uscrt(sent_funds@.take(k)));
            assert(sum_amounts(sent_funds@.take(k)) <= u128::MAX);
            assert(sum_amounts(sent_funds@) <= u128::MAX);
        }
        lemma_sum_amounts_nonneg(sent_funds@);
    }
    let scrt_deposit = get_deposit(sent_funds)?;
    if scrt_deposit == 0 {
        return Err(ContractError::DepositZero);
    }
    Ok(scrt_deposit)
}

/// Makes `new_admin` (canonical) the admin; the caller has been checked to
/// be the admin.
pub fn try_change_admin(config: &mut Config, new_admin: Vec<u8>) -> (r: HandleAnswer)
    ensures
        *final(config) == (Config { admin: new_admin, ..*old(config) }),
        r == (HandleAnswer::ChangeAdmin { status: ResponseStatus::Success }),
{
    config.admin = new_admin;
    HandleAnswer::ChangeAdmin { status: ResponseStatus::Success }
}

/// Sets the contract's status; the caller has been checked to be the admin.
pub fn try_change_status(config: &mut Config, status: ContractStatus) -> (r: HandleAnswer)
    ensures
        *final(config) == (Config { status: status.code(), ..*old(config) }),
        r == (HandleAnswer::ChangeStatus { status: ResponseStatus::Success }),
{
    config.status = status.as_u8();
    HandleAnswer::ChangeStatus { status: ResponseStatus::Success }
}

/// What a withdrawal stores and sends.
#[derive(Clone, Debug, PartialEq, Eq)]
pub struct WithdrawOutcome {
    /// Appended to the user's pending withdrawals; the user's record is
    /// removed.
    pub withdrawal: UserWithdrawal,
    pub messages: Vec<TierMsg>,
    pub answer: HandleAnswer,
}

/// Withdraws the whole deposit of the sender: the user's record goes, the
/// deposited uscrt are undelegated and become claimable after the unbonding
/// period.
pub fn try_withdraw(config: &Config, user: Option<UserInfo>, time: u64) -> (r: Result<
    WithdrawOutcome,
    ContractError,
>)
    requires
        (config.status == ContractStatus::Active.code() && user is Some) ==> time + UNBOUND_LATENCY
            <= u64::MAX,
    ensures
        config.status != ContractStatus::Active.code() ==> r == Err::<WithdrawOutcome, ContractError>(
            ContractError::ContractNotActive,
        ),
        config.status == ContractStatus::Active.code() && user is None ==> r == Err::<
            WithdrawOutcome,
            ContractError,
        >(ContractError::NotFound),
        config.status == ContractStatus::Active.code() && user is Some ==> (r matches Ok(o) && {
            &&& o.withdrawal == UserWithdrawal {
                amount: user->0.scrt_deposit,
                timestamp: time,
                claim_time: (time + UNBOUND_LATENCY) as u64,
            }
            &&& o.messages@ == seq![
                TierMsg::Undelegate { validator: config.validator, amount: user->0.scrt_deposit },
            ]
            &&& o.answer == HandleAnswer::Withdraw { status: ResponseStatus::Success }
        }),
{
    config.assert_contract_active()?;
    let user_info = match user {
        Some(u) => u,
        None => {
            return Err(ContractError::NotFound);
        },
    };
    let amount = user_info.scrt_deposit;
    let claim_time = time.checked_add(UNBOUND_LATENCY).unwrap();
    let withdrawal = UserWithdrawal { amount, timestamp: time, claim_time };
    let mut messages: Vec<TierMsg> = Vec::new();
    messages.push(TierMsg::Undelegate { validator: config.validator.clone(), amount });
    Ok(
        WithdrawOutcome {
            withdrawal,
            messages,
            answer: HandleAnswer::Withdraw { status: ResponseStatus::Success },
        },
    )
}

/// A pending withdrawal can be claimed once its claim time has come.
pub open spec fn claimable(time: u64) -> spec_fn(UserWithdrawal) -> bool {
    |w: UserWithdrawal| time >= w.claim_time
}

/// The pending withdrawals a claim looks at: skip `start` (0 by default),
/// keep at most `limit` (50 by default).
pub open spec fn claim_window(
    list: Seq<UserWithdrawal>,
    start: Option<u32>,
    limit: Option<u32>,
) -> Seq<UserWithdrawal> {
    window(list, start.unwrap_or(0) as int, limit.unwrap_or(50) as int)
}

/// The uscrt of the claimable withdrawals of `w`.
pub open spec fn claimable_sum(w: Seq<UserWithdrawal>, time: u64) -> int
    decreases w.len(),
{
    if w.len() == 0 {
        0
    } else {
        claimable_sum(w.drop_last(), time) + if time >= w.last().claim_time {
            w.last().amount as int
        } else {
            0
        }
    }
}

/// The claimable sum of a prefix is at most that of the whole.
proof fn lemma_claimable_sum_prefix(w: Seq<UserWithdrawal>, time: u64, k: int)
    requires
        0 <= k <= w.len(),
    ensures
        claimable_sum(w.take(k), time) <= claimable_sum(w, time),
    decreases w.len(),
{
    if k < w.len() {
        assert(w.drop_last().take(k) =~= w.take(k));
        lemma_claimable_sum_prefix(w.drop_last(), time, k);
    } else {
        assert(w.take(k) =~= w);
    }
}

/// A withdrawal is due once its claim time has come.
pub proof fn lemma_claimable(time: u64, w: UserWithdrawal)
    ensures
        claimable(time)(w) <==> time >= w.claim_time,
{
}

/// The claimable sum adds up the amounts of the due withdrawals: nothing
/// for no withdrawal, and one more withdrawal adds its amount exactly when
/// it is due.
pub proof fn lemma_claimable_sum(s: Seq<UserWithdrawal>, w: UserWithdrawal, time: u64)
    ensures
        claimable_sum(Seq::<UserWithdrawal>::empty(), time) == 0,
        claimable_sum(s.push(w), time) == claimable_sum(s, time) + if time >= w.claim_time {
            w.amount as int
        } else {
            0
        },
{
    assert(s.push(w).drop_last() =~= s);
}

/// A claim looks at the window from `start` (0 by default) of `limit` (50
/// by default) pending withdrawals; by default, at the first 50.
pub proof fn lemma_claim_window(list: Seq<UserWithdrawal>, start: Option<u32>, limit: Option<u32>)
    ensures
        claim_window(list, start, limit) == window(
            list,
            match start {
                Some(s) => s as int,
                None => 0,
            },
            match limit {
                Some(l) => l as int,
                None => 50,
            },
        ),
        claim_window(list, None, None) == list.take(if list.len() < 50 {
            list.len() as int
        } else {
            50
        }),
{
    assert(claim_window(list, None, None) =~= list.take(if list.len() < 50 {
        list.len() as int
    } else {
        50
    }));
}

/// Whether the uscrt a claim would pay fits in a `u128`, as `try_claim`
/// requires.
pub fn claim_fits(
    withdrawals: &Vec<UserWithdrawal>,
    start: Option<u32>,
    limit: Option<u32>,
    time: u64,
) -> (r: bool)
    ensures
        r == (claimable_sum(claim_window(withdrawals@, start, limit), time) <= u128::MAX),
{
    let length = withdrawals.len();
    let start_v: usize = match start {
        Some(s) => s as usize,
        None => 0,
    };
    let limit_v: usize = match limit {
        Some(l) => l as usize,
        None => 50,
    };
    let from = if start_v < length { start_v } else { length };
    let end = if limit_v <= length - from { from + limit_v } else { length };
    let ghost w = claim_window(withdrawals@, start, limit);
    assert(w =~= withdrawals@.subrange(from as int, end as int));
    let mut sum: u128 = 0;
    let mut i: usize = 0;
    while from + i < end
        invariant
            from <= end <= withdrawals@.len(),
            w == withdrawals@.subrange(from as int, end as int),
            w == claim_window(withdrawals@, start, limit),
            i <= end - from,
            sum == claimable_sum(w.take(i as int), time),
        decreases end - from - i,
    {
        let withdrawal = withdrawals[from + i];
        assert(withdrawal == w[i as int]);
        assert(w.take(i + 1).drop_last() =~= w.take(i as int));
        assert(w.take(i + 1).last() == w[i as int]);
        if time >= withdrawal.claim_time {
            match sum.checked_add(withdrawal.amount) {
                Some(s) => {
                    sum = s;
                },
                None => {
                    proof {
                        assert(claimable_sum(w.take(i + 1), time) == sum + withdrawal.amount);
                        lemma_claimable_sum_prefix(w, time, i + 1);
                    }
                    return false;
                },
            }
        }
        i = i + 1;
    }
    assert(w.take(i as int) =~= w);
    true
}

/// Undelegated uscrt can be claimed exactly once the unbonding period has
/// passed: a withdrawal made at `time`, as `try_withdraw` records it, pays
/// its whole amount to a claim from `time + UNBOUND_LATENCY` on, and nothing
/// to a claim before.
pub proof fn lemma_claim_after_unbonding(amount: u128, time: u64, later: u64)
    requires
        time + UNBOUND_LATENCY <= u64::MAX,
    ensures
        ({
            let w = UserWithdrawal {
                amount,
                timestamp: time,
                claim_time: (time + UNBOUND_LATENCY) as u64,
            };
            claimable_sum(claim_window(seq![w], None, None), later) == if later >= time
                + UNBOUND_LATENCY {
                amount as int
            } else {
                0
            }
        }),
{
    let w = UserWithdrawal { amount, timestamp: time, claim_time: (time + UNBOUND_LATENCY) as u64 };
    assert(claim_window(seq![w], None, None) =~= seq![w]);
    assert(seq![w].drop_last() =~= Seq::<UserWithdrawal>::empty());
    assert(seq![w].last() == w);
    assert(claimable_sum(Seq::<UserWithdrawal>::empty(), later) == 0);
}

/// What a claim removes and sends.
#[derive(Clone, Debug, PartialEq, Eq)]
pub struct ClaimOutcome {
    /// Positions at which to remove, one after the other, from the stored
    /// pending withdrawals.
    pub remove_positions: Vec<u32>,
    pub amount: u128,
    pub messages: Vec<TierMsg>,
    pub answer: HandleAnswer,
}

/// Pays out the claimable withdrawals among those the claim looks at, to
/// `recipient` or else to the sender, and removes them from the pending
/// ones. Claiming when nothing is due pays nothing and removes nothing.
#[verifier::rlimit(40)]
pub fn try_claim(
    config: &Config,
    withdrawals: &Vec<UserWithdrawal>,
    sender: &String,
    contract: &String,
    recipient: Option<String>,
    start: Option<u32>,
    limit: Option<u32>,
    time: u64,
) -> (r: Result<ClaimOutcome, ContractError>)
    requires
        withdrawals@.len() <= u32::MAX,
        claimable_sum(claim_window(withdrawals@, start, limit), time) <= u128::MAX,
    ensures
        config.status != ContractStatus::Active.code() ==> r == Err::<ClaimOutcome, ContractError>(
            ContractError::ContractNotActive,
        ),
        config.status == ContractStatus::Active.code() && withdrawals@.len() == 0 ==> r == Err::<
            ClaimOutcome,
            ContractError,
        >(ContractError::NothingToWithdraw),
        config.status == ContractStatus::Active.code() && withdrawals@.len() > 0 ==> (r matches Ok(o)
            && {
            let w = claim_window(withdrawals@, start, limit);
            let to = match recipient {
                Some(a) => a,
                None => *sender,
            };
            &&& o.amount == claimable_sum(w, time)
            &&& o.answer == HandleAnswer::Claim { amount: o.amount, status: ResponseStatus::Success }
            &&& o.amount == 0 ==> o.remove_positions@.len() == 0 && o.messages@.len() == 0
            &&& o.amount != 0 ==> as_ints(o.remove_positions@) == shifted_positions(
                selected_indices(w, claimable(time)),
            ) && o.messages@ == seq![
                TierMsg::BankSend { from_address: *contract, to_address: to, amount: o.amount },
            ]
            // the removals stay in range
            &&& removable(withdrawals@, as_ints(o.remove_positions@))
            // from the front, the claim keeps exactly the pending withdrawals
            // that are not yet due, in their order
            &&& (start.unwrap_or(0) == 0 && o.amount != 0) ==> removed(
                withdrawals@,
                as_ints(o.remove_positions@),
            ) == unselected(w, claimable(time)) + withdrawals@.skip(w.len() as int)
        }),
        // a plain claim over at most 50 pending withdrawals pays every due one
        // and keeps exactly those not yet due, in order
        (config.status == ContractStatus::Active.code() && withdrawals@.len() > 0 && start is None
            && limit is None && withdrawals@.len() <= 50) ==> (r matches Ok(o) && {
            &&& o.amount == claimable_sum(withdrawals@, time)
            &&& o.amount != 0 ==> removed(withdrawals@, as_ints(o.remove_positions@)) == unselected(
                withdrawals@,
                claimable(time),
            )
        }),
{
    proof {
        if start is None && limit is None && withdrawals@.len() <= 50 {
            assert(claim_window(withdrawals@, start, limit) =~= withdrawals@);
            assert(withdrawals@.skip(withdrawals@.len() as int) =~= Seq::<UserWithdrawal>::empty());
            assert(unselected(withdrawals@, claimable(time)) + Seq::<UserWithdrawal>::empty()
                =~= unselected(withdrawals@, claimable(time)));
        }
    }
    config.assert_contract_active()?;
    let length = withdrawals.len();
    if length == 0 {
        return Err(ContractError::NothingToWithdraw);
    }
    let to = match recipient {
        Some(a) => a,
        None => sender.clone(),
    };
    let start_v: usize = match start {
        Some(s) => s as usize,
        None => 0,
    };
    let limit_v: usize = match limit {
        Some(l) => l as usize,
        None => 50,
    };
    let from = if start_v < length { start_v } else { length };
    let end = if limit_v <= length - from { from + limit_v } else { length };
    let ghost w = claim_window(withdrawals@, start, limit);
    assert(w =~= withdrawals@.subrange(from as int, end as int));
    let ghost sel = claimable(time);
    let mut remove_positions: Vec<u32> = Vec::new();
    let mut withdraw_amount: u128 = 0;
    let mut i: usize = 0;
    while from + i < end
        invariant
            from <= end <= withdrawals@.len() <= u32::MAX,
            w == withdrawals@.subrange(from as int, end as int),
            sel == claimable(time),
            i <= end - from,
            claimable_sum(w, time) <= u128::MAX,
            as_ints(remove_positions@) == shifted_positions(selected_indices(w.take(i as int), sel)),
            withdraw_amount == claimable_sum(w.take(i as int), time),
        decreases end - from - i,
    {
        let withdrawal = withdrawals[from + i];
        assert(withdrawal == w[i as int]);
        assert(w.take(i + 1).drop_last() =~= w.take(i as int));
        assert(w.take(i + 1).last() == w[i as int]);
        proof {
            lemma_claimable_sum_prefix(w, time, i + 1);
            lemma_selected_indices(w.take(i as int), sel);
        }
        if time >= withdrawal.claim_time {
            let shift = remove_positions.len();
            let ghost p = selected_indices(w.take(i as int), sel);
            assert(shift == p.len()) by {
                assert(as_ints(remove_positions@).len() == remove_positions@.len());
            }
            assert(shift <= i);
            assert(sel(w.take(i + 1).last()));
            assert(selected_indices(w.take(i + 1), sel) == p.push(i as int));
            let ghost before = remove_positions@;
            remove_positions.push((i - shift) as u32);
            assert(remove_positions@ == before.push((i - shift) as u32));
            assert(as_ints(remove_positions@) =~= as_ints(before).push(i - shift));
            assert(shifted_positions(p.push(i as int)) =~= shifted_positions(p).push(i - p.len()));
            withdraw_amount = withdraw_amount.checked_add(withdrawal.amount).unwrap();
        }
        i = i + 1;
    }
    assert(w.take(i as int) =~= w);
    proof {
        lemma_selected_indices(w, sel);
        lemma_remove_at_indices(withdrawals@, Seq::new(
            selected_indices(w, sel).len(),
            |k: int| selected_indices(w, sel)[k],
        ));
        assert(Seq::new(selected_indices(w, sel).len(), |k: int| selected_indices(w, sel)[k])
            =~= selected_indices(w, sel));
        assert forall|k: int| 0 <= k < selected_indices(w, sel).len() implies 0
            <= #[trigger] selected_indices(w, sel)[k] < withdrawals@.len() by {}
        if from == 0 {
            assert(withdrawals@ =~= w + withdrawals@.skip(w.len() as int));
            lemma_remove_selected(w, withdrawals@.skip(w.len() as int), sel);
        }
    }
    if withdraw_amount == 0 {
        let none: Vec<u32> = Vec::new();
        assert(as_ints(none@) =~= Seq::<int>::empty());
        return Ok(
            ClaimOutcome {
                remove_positions: none,
                amount: 0,
                messages: Vec::new(),
                answer: HandleAnswer::Claim { amount: 0, status: ResponseStatus::Success },
            },
        );
    }
    let mut messages: Vec<TierMsg> = Vec::new();
    messages.push(
        TierMsg::BankSend { from_address: contract.clone(), to_address: to, amount: withdraw_amount },
    );
    Ok(
        ClaimOutcome {
            remove_positions,
            amount: withdraw_amount,
            messages,
            answer: HandleAnswer::Claim { amount: withdraw_amount, status: ResponseStatus::Success },
        },
    )
}

} // verus!

verus! {

/// What withdrawing rewards or redelegating sends.
#[derive(Clone, Debug, PartialEq, Eq)]
pub struct StakingOutcome {
    pub messages: Vec<TierMsg>,
    pub answer: HandleAnswer,
}

/// The uscrt rewards of the contract's delegation, if any.
pub open spec fn rewards_of(delegation: Option<FullDelegation>) -> u128 {
    match delegation {
        Some(d) => d.accumulated_rewards.amount,
        None => 0,
    }
}

/// The rewards of a delegation are its uscrt rewards, and there are none
/// without a delegation.
pub proof fn lemma_rewards_of(delegation: Option<FullDelegation>)
    ensures
        delegation matches Some(d) ==> rewards_of(delegation) == d.accumulated_rewards.amount,
        delegation is None ==> rewards_of(delegation) == 0,
{
}

/// Withdraws the staking rewards of the contract's delegation to
/// `recipient`, or else to the admin (`admin` is the admin's address); the
/// caller has been checked to be the admin.
pub fn try_withdraw_rewards(
    config: &Config,
    delegation: Option<FullDelegation>,
    admin: &String,
    recipient: Option<String>,
) -> (r: Result<StakingOutcome, ContractError>)
    ensures
        rewards_of(delegation) == 0 ==> r == Err::<StakingOutcome, ContractError>(
            ContractError::NoRewards,
        ),
        rewards_of(delegation) != 0 ==> (r matches Ok(o) && o.messages@ == seq![
            TierMsg::Withdraw {
                validator: config.validator,
                recipient: Some(
                    match recipient {
                        Some(a) => a,
                        None => *admin,
                    },
                ),
            },
        ] && o.answer == HandleAnswer::WithdrawRewards {
            amount: rewards_of(delegation),
            status: ResponseStatus::Success,
        }),
        // without a delegation, or with no uscrt rewards, nothing is withdrawn
        delegation is None ==> r == Err::<StakingOutcome, ContractError>(ContractError::NoRewards),
        (delegation matches Some(d) && d.accumulated_rewards.amount == 0) ==> r == Err::<
            StakingOutcome,
            ContractError,
        >(ContractError::NoRewards),
        // otherwise the amount reported is the delegation's uscrt rewards
        (delegation matches Some(d) && d.accumulated_rewards.amount != 0) ==> (r matches Ok(o)
            && o.answer == HandleAnswer::WithdrawRewards {
            amount: delegation->0.accumulated_rewards.amount,
            status: ResponseStatus::Success,
        }),
{
    let can_withdraw = match &delegation {
        Some(d) => d.accumulated_rewards.amount,
        None => 0,
    };
    if can_withdraw == 0 {
        return Err(ContractError::NoRewards);
    }
    let to = match recipient {
        Some(a) => a,
        None => admin.clone(),
    };
    let mut messages: Vec<TierMsg> = Vec::new();
    messages.push(TierMsg::Withdraw { validator: config.validator.clone(), recipient: Some(to) });
    Ok(
        StakingOutcome {
            messages,
            answer: HandleAnswer::WithdrawRewards {
                amount: can_withdraw,
                status: ResponseStatus::Success,
            },
        },
    )
}

/// Moves the contract's delegation to `validator_address` and makes it the
/// validator for new deposits; the rewards accumulated so far go to
/// `recipient`, or else to the admin. Refused for the same validator, and
/// while part of the delegation cannot be redelegated. The caller has been
/// checked to be the admin.
pub fn try_redelegate(
    config: &mut Config,
    delegation: Option<FullDelegation>,
    validator_address: String,
    admin: &String,
    recipient: Option<String>,
) -> (r: Result<StakingOutcome, ContractError>)
    ensures
        old(config).validator@ == validator_address@ ==> r == Err::<StakingOutcome, ContractError>(
            ContractError::SameValidator,
        ),
        old(config).validator@ != validator_address@ && delegation is None ==> (r matches Ok(o)
            && o.messages@.len() == 0 && o.answer == HandleAnswer::Redelegate {
            amount: 0,
            status: ResponseStatus::Success,
        }),
        old(config).validator@ != validator_address@ && (delegation matches Some(d)
            && d.can_redelegate.amount != d.amount.amount) ==> r == Err::<
            StakingOutcome,
            ContractError,
        >(ContractError::CannotRedelegateFull),
        old(config).validator@ != validator_address@ && (delegation matches Some(d)
            && d.can_redelegate.amount == d.amount.amount) ==> (r matches Ok(o) && {
            let d = delegation->0;
            let to = match recipient {
                Some(a) => a,
                None => *admin,
            };
            let moved = TierMsg::Redelegate {
                src_validator: old(config).validator,
                dst_validator: validator_address,
                amount: d.can_redelegate.amount,
            };
            &&& o.messages@ == if d.accumulated_rewards.amount != 0 {
                seq![
                    TierMsg::Withdraw { validator: old(config).validator, recipient: Some(to) },
                    moved,
                ]
            } else {
                seq![moved]
            }
            &&& o.answer == HandleAnswer::Redelegate {
                amount: d.can_redelegate.amount,
                status: ResponseStatus::Success,
            }
        }),
        r is Ok ==> *final(config) == (Config { validator: validator_address, ..*old(config) }),
        r is Err ==> *final(config) == *old(config),
{
    let old_validator = config.validator.clone();
    if old_validator == validator_address {
        return Err(ContractError::SameValidator);
    }
    match delegation {
        None => {
            config.validator = validator_address;
            Ok(
                StakingOutcome {
                    messages: Vec::new(),
                    answer: HandleAnswer::Redelegate { amount: 0, status: ResponseStatus::Success },
                },
            )
        },
        Some(d) => {
            let can_withdraw = d.accumulated_rewards.amount;
            let can_redelegate = d.can_redelegate.amount;
            let delegated_amount = d.amount.amount;
            if can_redelegate != delegated_amount {
                return Err(ContractError::CannotRedelegateFull);
            }
            config.validator = validator_address.clone();
            let mut messages: Vec<TierMsg> = Vec::new();
            if can_withdraw != 0 {
                let to = match recipient {
                    Some(a) => a,
                    None => admin.clone(),
                };
                messages.push(
                    TierMsg::Withdraw { validator: old_validator.clone(), recipient: Some(to) },
                );
            }
            messages.push(
                TierMsg::Redelegate {
                    src_validator: old_validator,
                    dst_validator: validator_address,
                    amount: can_redelegate,
                },
            );
            Ok(
                StakingOutcome {
                    messages,
                    answer: HandleAnswer::Redelegate {
                        amount: can_redelegate,
                        status: ResponseStatus::Success,
                    },
                },
            )
        },
    }
}

/// A user's record as a query shows it: as stored, or a user without
/// deposit in the lowest tier.
pub fn query_user_info(config: &Config, user: Option<UserInfo>) -> (r: QueryAnswer)
    requires
        config.usd_deposits@.len() < usize::MAX,
    ensures
        ({
            let u = stored_or_new(config, user);
            r == QueryAnswer::UserInfo {
                tier: u.tier,
                timestamp: u.timestamp,
                usd_deposit: u.usd_deposit,
                scrt_deposit: u.scrt_deposit,
            }
        }),
{
    let min_tier = config.min_tier();
    let user_info = match user {
        Some(u) => u,
        None => UserInfo::with_tier(min_tier),
    };
    user_info.to_answer()
}

/// A pending withdrawal as a query shows it.
pub open spec fn serialized(w: UserWithdrawal) -> SerializedWithdrawals {
    SerializedWithdrawals { amount: w.amount, claim_time: w.claim_time, timestamp: w.timestamp }
}

/// The number of pending withdrawals and page `start` (0 by default) of
/// them, in pages of `limit` (50 by default).
pub fn query_withdrawals(
    withdrawals: &Vec<UserWithdrawal>,
    start: Option<u32>,
    limit: Option<u32>,
) -> (r: QueryAnswer)
    requires
        withdrawals@.len() <= u32::MAX,
        start.unwrap_or(0) * limit.unwrap_or(50) <= usize::MAX,
    ensures
        r matches QueryAnswer::Withdrawals { amount, withdrawals: page } && amount
            == withdrawals@.len() && page@ == page_of(
            withdrawals@,
            start.unwrap_or(0),
            limit.unwrap_or(50),
        ).map_values(|w: UserWithdrawal| serialized(w)),
        // the page holds the withdrawals from index `start * limit` on, at
        // most `limit` of them, each shown field for field
        r matches QueryAnswer::Withdrawals { withdrawals: page, .. } && ({
            let s = match start {
                Some(v) => v,
                None => 0u32,
            };
            let l = match limit {
                Some(v) => v,
                None => 50u32,
            };
            let from = s * l;
            let n = withdrawals@.len();
            &&& page@.len() == if from >= n {
                0
            } else if n - from < l {
                n - from
            } else {
                l as int
            }
            &&& forall|k: int|
                0 <= k < page@.len() ==> #[trigger] page@[k] == (SerializedWithdrawals {
                    amount: withdrawals@[from + k].amount,
                    claim_time: withdrawals@[from + k].claim_time,
                    timestamp: withdrawals@[from + k].timestamp,
                })
        }),
{
    let amount = withdrawals.len() as u32;
    let start = match start {
        Some(s) => s,
        None => 0,
    };
    let limit = match limit {
        Some(l) => l,
        None => 50,
    };
    let items = page(withdrawals, start, limit);
    let mut out: Vec<SerializedWithdrawals> = Vec::new();
    let mut i: usize = 0;
    while i < items.len()
        invariant
            i <= items@.len(),
            out@ == items@.take(i as int).map_values(|w: UserWithdrawal| serialized(w)),
        decreases items@.len() - i,
    {
        out.push(items[i].to_serialized());
        assert(out@ =~= items@.take(i + 1).map_values(|w: UserWithdrawal| serialized(w)));
        i = i + 1;
    }
    assert(items@.take(i as int) =~= items@);
    QueryAnswer::Withdrawals { amount, withdrawals: out }
}

} // verus!
