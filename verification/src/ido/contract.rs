//! The IDO contract's handlers, from the values read in storage and in the
//! message to the values to store and the messages to send.
use vstd::prelude::*;
use crate::common::{all_uscrt, lemma_sum_amounts_nonneg, page, page_of, sum_amounts, uscrt_prefix_fits, Coin};
use crate::error::ContractError;
use crate::seqs::{
    as_ints, lemma_picked_indices, lemma_picked_is_selected, lemma_remove_at_indices,
    lemma_remove_selected, lemma_removal_multiset, picked_indices, removable, removed,
    removed_items, shifted_positions, unselected,
};
use crate::ido::msg::{
    ContractStatus, HandleAnswer, IdoMsg, InitMsg, PurchaseAnswer, QueryAnswer, ResponseStatus,
    Whitelist,
};
use crate::ido::state::{Config, Ido, Purchase, UserInfo};
use crate::tier::state::strictly_decreasing;

verus! {

/// Size to which answers are padded.
pub const BLOCK_SIZE: usize = 256;

/// The address that becomes admin: the one named in the message, or else
/// the sender.
pub fn init_admin(msg: &InitMsg, sender: &String) -> (r: String)
    ensures
        msg.admin matches Some(a) ==> r == a,
        msg.admin is None ==> r == *sender,
{
    match &msg.admin {
        Some(a) => a.clone(),
        None => sender.clone(),
    }
}

/// The configuration the contract starts with: active, with the canonical
/// forms of the admin (see `init_admin`), tier contract and NFT contract,
/// and the message's settings.
pub fn init(msg: InitMsg, admin: Vec<u8>, tier_contract: Vec<u8>, nft_contract: Vec<u8>) -> (r:
    Result<Config, ContractError>)
    ensures
        msg.max_payments@.len() == 0 ==> r == Err::<Config, ContractError>(
            ContractError::MaxPaymentsEmpty,
        ),
        msg.max_payments@.len() > 0 && !strictly_decreasing(msg.max_payments@) ==> r == Err::<
            Config,
            ContractError,
        >(ContractError::MaxPaymentsNotDecreasing),
        msg.max_payments@.len() > 0 && strictly_decreasing(msg.max_payments@) ==> r == Ok::<
            Config,
            ContractError,
        >(
            Config {
                admin,
                status: ContractStatus::Active.code(),
                tier_contract,
                tier_contract_hash: msg.tier_contract_hash,
                nft_contract,
                nft_contract_hash: msg.nft_contract_hash,
                max_payments: msg.max_payments,
                lock_periods: msg.lock_periods,
            },
        ),
{
    msg.check()?;
    Ok(
        Config {
            admin,
            status: ContractStatus::Active.as_u8(),
            tier_contract,
            nft_contract,
            tier_contract_hash: msg.tier_contract_hash,
            nft_contract_hash: msg.nft_contract_hash,
            lock_periods: msg.lock_periods,
            max_payments: msg.max_payments,
        },
    )
}

/// Makes `new_admin` (canonical) the admin; the caller has been checked to
/// be the admin.
pub fn change_admin(config: &mut Config, new_admin: Vec<u8>) -> (r: HandleAnswer)
    ensures
        *final(config) == (Config { admin: new_admin, ..*old(config) }),
        r == (HandleAnswer::ChangeAdmin { status: ResponseStatus::Success }),
{
    config.admin = new_admin;
    HandleAnswer::ChangeAdmin { status: ResponseStatus::Success }
}

/// Sets the contract's status; the caller has been checked to be the admin.
pub fn change_status(config: &mut Config, status: ContractStatus) -> (r: HandleAnswer)
    ensures
        *final(config) == (Config { status: status.code(), ..*old(config) }),
        r == (HandleAnswer::ChangeStatus { status: ResponseStatus::Success }),
{
    config.status = status.as_u8();
    HandleAnswer::ChangeStatus { status: ResponseStatus::Success }
}

/// A sale as a `StartIdo` message describes it, created by `admin`, with
/// canonical addresses; `payment` is the payment token and its code hash,
/// none for uscrt.
pub fn new_ido(
    admin: Vec<u8>,
    start_time: u64,
    end_time: u64,
    token_contract: Vec<u8>,
    token_contract_hash: String,
    price: u128,
    total_amount: u128,
    payment: Option<(Vec<u8>, String)>,
    tokens_per_tier: Option<Vec<u128>>,
) -> (r: Ido)
    ensures
        r == (Ido {
            id: None,
            admin,
            start_time,
            end_time,
            token_contract,
            token_contract_hash,
            payment_token_contract: match payment {
                Some(p) => Some(p.0),
                None => None,
            },
            payment_token_hash: match payment {
                Some(p) => Some(p.1),
                None => None,
            },
            price,
            participants: 0,
            sold_amount: 0,
            remaining_tokens_per_tier: tokens_per_tier,
            total_tokens_amount: total_amount,
            total_payment: 0,
            withdrawn: false,
            shared_whitelist: false,
        }),
{
    let (payment_token_contract, payment_token_hash) = match payment {
        Some(p) => (Some(p.0), Some(p.1)),
        None => (None, None),
    };
    Ido {
        id: None,
        admin,
        start_time,
        end_time,
        token_contract,
        token_contract_hash,
        payment_token_contract,
        payment_token_hash,
        price,
        participants: 0,
        sold_amount: 0,
        remaining_tokens_per_tier: tokens_per_tier,
        total_tokens_amount: total_amount,
        total_payment: 0,
        withdrawn: false,
        shared_whitelist: false,
    }
}

/// The sum of the amounts of `s`.
pub open spec fn sum_u128(s: Seq<u128>) -> int
    decreases s.len(),
{
    if s.len() == 0 {
        0
    } else {
        sum_u128(s.drop_last()) + s.last()
    }
}

/// A sum of amounts is never negative.
proof fn lemma_sum_u128_nonneg(s: Seq<u128>)
    ensures
        sum_u128(s) >= 0,
    decreases s.len(),
{
    if s.len() > 0 {
        lemma_sum_u128_nonneg(s.drop_last());
    }
}

/// Changing one amount changes the sum by the difference.
proof fn lemma_sum_u128_update(s: Seq<u128>, k: int, x: u128)
    requires
        0 <= k < s.len(),
    ensures
        sum_u128(s.update(k, x)) == sum_u128(s) - s[k] + x,
    decreases s.len(),
{
    if k == s.len() - 1 {
        assert(s.update(k, x).drop_last() =~= s.drop_last());
    } else {
        lemma_sum_u128_update(s.drop_last(), k, x);
        assert(s.update(k, x).drop_last() =~= s.drop_last().update(k, x));
    }
}

/// Every token of a sale is accounted for: no more are sold than there are
/// for sale, and when the sale splits its tokens by tier, those left for the
/// tiers and those sold make up the tokens for sale.
pub open spec fn tokens_accounted(ido: &Ido) -> bool {
    &&& ido.sold_amount <= ido.total_tokens_amount
    &&& ido.remaining_tokens_per_tier matches Some(v) ==> sum_u128(v@) + ido.sold_amount
        == ido.total_tokens_amount
}

/// The sum of a prefix is at most the sum of the whole.
proof fn lemma_sum_u128_prefix(s: Seq<u128>, k: int)
    requires
        0 <= k <= s.len(),
    ensures
        sum_u128(s.take(k)) <= sum_u128(s),
    decreases s.len(),
{
    if k < s.len() {
        assert(s.drop_last().take(k) =~= s.take(k));
        lemma_sum_u128_prefix(s.drop_last(), k);
    } else {
        assert(s.take(k) =~= s);
    }
}

/// The sum of `v`.
fn sum_tokens(v: &Vec<u128>) -> (r: u128)
    requires
        sum_u128(v@) <= u128::MAX,
    ensures
        r == sum_u128(v@),
{
    let mut sum: u128 = 0;
    let mut i: usize = 0;
    while i < v.len()
        invariant
            i <= v@.len(),
            sum_u128(v@) <= u128::MAX,
            sum == sum_u128(v@.take(i as int)),
        decreases v@.len() - i,
    {
        assert(v@.take(i + 1).drop_last() =~= v@.take(i as int));
        proof {
            lemma_sum_u128_prefix(v@, i + 1);
        }
        sum = sum + v[i];
        i = i + 1;
    }
    assert(v@.take(i as int) =~= v@);
    sum
}

/// Whether the sum of `v` fits in a `u128`, as `start_ido` requires of the
/// tokens per tier.
pub fn tokens_fit(v: &Vec<u128>) -> (r: bool)
    ensures
        r == (sum_u128(v@) <= u128::MAX),
{
    let mut sum: u128 = 0;
    let mut i: usize = 0;
    while i < v.len()
        invariant
            i <= v@.len(),
            sum == sum_u128(v@.take(i as int)),
        decreases v@.len() - i,
    {
        assert(v@.take(i + 1).drop_last() =~= v@.take(i as int));
        match sum.checked_add(v[i]) {
            Some(s) => {
                sum = s;
            },
            None => {
                proof {
                    lemma_sum_u128_prefix(v@, i + 1);
                }
                return false;
            },
        }
        i = i + 1;
    }
    assert(v@.take(i as int) =~= v@);
    true
}

/// The addresses a whitelist names, with whether each may buy.
pub open spec fn whitelist_entries(whitelist: Whitelist) -> Seq<(String, bool)> {
    match whitelist {
        Whitelist::Empty { with } => match with {
            Some(a) => a@.map_values(|s: String| (s, true)),
            None => Seq::empty(),
        },
        Whitelist::Shared { with_blocked } => match with_blocked {
            Some(a) => a@.map_values(|s: String| (s, false)),
            None => Seq::empty(),
        },
    }
}

/// A whitelist that lists who may buy gives each listed address `true`;
/// one that lists the blocked addresses gives each `false`; in their order.
pub proof fn lemma_whitelist_entries(whitelist: Whitelist)
    ensures
        ({
            let (list, value) = match whitelist {
                Whitelist::Empty { with } => (with, true),
                Whitelist::Shared { with_blocked } => (with_blocked, false),
            };
            let e = whitelist_entries(whitelist);
            &&& list is None ==> e.len() == 0
            &&& list matches Some(a) ==> e.len() == a@.len() && forall|k: int|
                0 <= k < e.len() ==> #[trigger] e[k] == (a@[k], value)
        }),
{
}

/// Amounts add up front to back: nothing for none, and one more amount adds
/// itself.
pub proof fn lemma_sum_u128(s: Seq<u128>, x: u128)
    ensures
        sum_u128(Seq::<u128>::empty()) == 0,
        sum_u128(s.push(x)) == sum_u128(s) + x,
{
    assert(s.push(x).drop_last() =~= s);
}

/// What starting a sale stores and sends.
#[derive(Clone, Debug, PartialEq, Eq)]
pub struct StartIdoPlan {
    /// Whitelist entries of the new sale, in order.
    pub whitelist: Vec<(String, bool)>,
    /// Transfer of the tokens for sale from the creator to the contract.
    pub messages: Vec<IdoMsg>,
}

/// Starts a sale: refuses tokens per tier that are not given for each tier
/// or do not add up to the tokens for sale, and times that do not make a
/// sale ending in the future. The sale's whitelist is shared when it lists
/// the blocked addresses. `token_contract` is the human form of the sale's
/// token, `sender` its creator.
pub fn start_ido(
    config: &Config,
    ido: &mut Ido,
    whitelist: Whitelist,
    time: u64,
    sender: &String,
    contract: &String,
    token_contract: &String,
) -> (r: Result<StartIdoPlan, ContractError>)
    requires
        (config.status == ContractStatus::Active.code() && (old(
            ido,
        ).remaining_tokens_per_tier matches Some(v) && v@.len() == config.max_payments@.len()))
            ==> sum_u128(old(ido).remaining_tokens_per_tier->0@) <= u128::MAX,
    ensures
        ({
            let i = *old(ido);
            let per_tier_ok = match i.remaining_tokens_per_tier {
                Some(v) => v@.len() == config.max_payments@.len() && sum_u128(v@)
                    == i.total_tokens_amount,
                None => true,
            };
            &&& config.status != ContractStatus::Active.code() ==> r == Err::<
                StartIdoPlan,
                ContractError,
            >(ContractError::ContractNotActive)
            &&& config.status == ContractStatus::Active.code() && (i.remaining_tokens_per_tier matches Some(
                v,
            ) && v@.len() != config.max_payments@.len()) ==> r == Err::<
                StartIdoPlan,
                ContractError,
            >(ContractError::ArraysDifferentLength)
            &&& config.status == ContractStatus::Active.code() && (i.remaining_tokens_per_tier matches Some(
                v,
            ) && v@.len() == config.max_payments@.len() && sum_u128(v@) != i.total_tokens_amount)
                ==> r == Err::<StartIdoPlan, ContractError>(ContractError::TokensPerTierSumMismatch)
            &&& config.status == ContractStatus::Active.code() && per_tier_ok && i.start_time
                >= i.end_time ==> r == Err::<StartIdoPlan, ContractError>(
                ContractError::EndBeforeStart,
            )
            &&& config.status == ContractStatus::Active.code() && per_tier_ok && i.start_time
                < i.end_time && time >= i.end_time ==> r == Err::<StartIdoPlan, ContractError>(
                ContractError::EndsInPast,
            )
            &&& config.status == ContractStatus::Active.code() && per_tier_ok && i.start_time
                < i.end_time && time < i.end_time ==> (r matches Ok(plan) && {
                &&& *final(ido) == Ido { shared_whitelist: whitelist is Shared, ..i }
                &&& plan.whitelist@ == whitelist_entries(whitelist)
                &&& plan.messages@ == seq![
                    IdoMsg::Snip20TransferFrom {
                        owner: *sender,
                        recipient: *contract,
                        amount: i.total_tokens_amount,
                        code_hash: i.token_contract_hash,
                        contract: *token_contract,
                    },
                ]
            })
            &&& r is Err ==> *final(ido) == i
            // a new sale that starts has every token accounted for
            &&& (r is Ok && i.sold_amount == 0) ==> tokens_accounted(&*final(ido))
        }),
{
    crate::ido::utils::assert_contract_active(config)?;
    if let Some(token_per_tier) = &ido.remaining_tokens_per_tier {
        if config.max_payments.len() != token_per_tier.len() {
            return Err(ContractError::ArraysDifferentLength);
        }
        let sum = sum_tokens(token_per_tier);
        if sum != ido.total_tokens_amount {
            return Err(ContractError::TokensPerTierSumMismatch);
        }
    }
    if ido.start_time >= ido.end_time {
        return Err(ContractError::EndBeforeStart);
    }
    if time >= ido.end_time {
        return Err(ContractError::EndsInPast);
    }
    let shared = match &whitelist {
        Whitelist::Empty { .. } => false,
        Whitelist::Shared { .. } => true,
    };
    ido.shared_whitelist = shared;
    let (addresses, value) = match whitelist {
        Whitelist::Empty { with } => (with, true),
        Whitelist::Shared { with_blocked } => (with_blocked, false),
    };
    let mut entries: Vec<(String, bool)> = Vec::new();
    if let Some(addresses) = addresses {
        let mut i: usize = 0;
        while i < addresses.len()
            invariant
                i <= addresses@.len(),
                entries@ == addresses@.take(i as int).map_values(|s: String| (s, value)),
            decreases addresses@.len() - i,
        {
            entries.push((addresses[i].clone(), value));
            assert(entries@ =~= addresses@.take(i + 1).map_values(|s: String| (s, value)));
            i = i + 1;
        }
        assert(addresses@.take(i as int) =~= addresses@);
    } else {
        assert(entries@ =~= Seq::<(String, bool)>::empty());
    }
    let mut messages: Vec<IdoMsg> = Vec::new();
    messages.push(
        IdoMsg::Snip20TransferFrom {
            owner: sender.clone(),
            recipient: contract.clone(),
            amount: ido.total_tokens_amount,
            code_hash: ido.token_contract_hash.clone(),
            contract: token_contract.clone(),
        },
    );
    Ok(StartIdoPlan { whitelist: entries, messages })
}

/// What withdrawing the unsold tokens of a sale sends.
#[derive(Clone, Debug, PartialEq, Eq)]
pub struct WithdrawOutcome {
    pub messages: Vec<IdoMsg>,
    pub answer: HandleAnswer,
}

/// Once a sale has ended, sends its creator (`ido_admin`) the tokens it did
/// not sell and marks them withdrawn; only once, and only when some are
/// left. The caller has been checked to be the creator, and the contract to
/// be active. `token_contract` is the human form of the sale's token.
pub fn withdraw(ido: &mut Ido, time: u64, ido_admin: &String, token_contract: &String) -> (r:
    Result<WithdrawOutcome, ContractError>)
    requires
        (!old(ido).withdrawn && time >= old(ido).end_time) ==> old(ido).sold_amount <= old(
            ido,
        ).total_tokens_amount,
    ensures
        old(ido).withdrawn ==> r == Err::<WithdrawOutcome, ContractError>(
            ContractError::AlreadyWithdrawn,
        ),
        !old(ido).withdrawn && time < old(ido).end_time ==> r == Err::<WithdrawOutcome, ContractError>(
            ContractError::IdoNotFinished,
        ),
        !old(ido).withdrawn && time >= old(ido).end_time && old(ido).remaining_amount_spec() == 0
            ==> r == Err::<WithdrawOutcome, ContractError>(ContractError::NothingToWithdraw),
        !old(ido).withdrawn && time >= old(ido).end_time && old(ido).remaining_amount_spec() != 0
            ==> (r matches Ok(o) && o.messages@ == seq![
            IdoMsg::Snip20Transfer {
                recipient: *ido_admin,
                amount: old(ido).remaining_amount_spec() as u128,
                code_hash: old(ido).token_contract_hash,
                contract: *token_contract,
            },
        ] && o.answer == HandleAnswer::Withdraw {
            amount: old(ido).remaining_amount_spec() as u128,
            status: ResponseStatus::Success,
        }),
        r is Ok ==> *final(ido) == (Ido { withdrawn: true, ..*old(ido) }),
        r is Err ==> *final(ido) == *old(ido),
{
    if ido.withdrawn {
        return Err(ContractError::AlreadyWithdrawn);
    }
    if time < ido.end_time {
        return Err(ContractError::IdoNotFinished);
    }
    let remaining_tokens = ido.remaining_amount();
    if remaining_tokens == 0 {
        return Err(ContractError::NothingToWithdraw);
    }
    ido.withdrawn = true;
    let mut messages: Vec<IdoMsg> = Vec::new();
    messages.push(
        IdoMsg::Snip20Transfer {
            recipient: ido_admin.clone(),
            amount: remaining_tokens,
            code_hash: ido.token_contract_hash.clone(),
            contract: token_contract.clone(),
        },
    );
    Ok(
        WithdrawOutcome {
            messages,
            answer: HandleAnswer::Withdraw { amount: remaining_tokens, status: ResponseStatus::Success },
        },
    )
}

/// A purchase as a query shows it.
pub open spec fn purchase_answer(p: Purchase) -> PurchaseAnswer {
    PurchaseAnswer {
        tokens_amount: p.tokens_amount,
        timestamp: p.timestamp,
        unlock_time: p.unlock_time,
    }
}

/// A purchase is shown with its own amount, purchase time and unlock time.
pub proof fn lemma_purchase_answer_fields(p: Purchase)
    ensures
        purchase_answer(p).tokens_amount == p.tokens_amount,
        purchase_answer(p).timestamp == p.timestamp,
        purchase_answer(p).unlock_time == p.unlock_time,
{
}

/// The number of a buyer's purchases in a sale, pending or released
/// (`archived`), and page `start` of them in pages of `limit`.
pub fn purchases_answer(purchases: &Vec<Purchase>, start: u32, limit: u32, archived: bool) -> (r:
    QueryAnswer)
    requires
        purchases@.len() <= u32::MAX,
        start * limit <= usize::MAX,
    ensures
        ({
            let shown = page_of(purchases@, start, limit).map_values(|p: Purchase| purchase_answer(p));
            &&& !archived ==> (r matches QueryAnswer::Purchases { purchases: p, amount } && amount
                == purchases@.len() && p@ == shown)
            &&& archived ==> (r matches QueryAnswer::ArchivedPurchases { purchases: p, amount }
                && amount == purchases@.len() && p@ == shown)
        }),
        // the page holds the purchases from index `start * limit` on, at most
        // `limit` of them, each shown field for field
        ({
            let from = start * limit;
            let n = purchases@.len();
            let p = match r {
                QueryAnswer::Purchases { purchases: p, .. } => p@,
                QueryAnswer::ArchivedPurchases { purchases: p, .. } => p@,
                _ => Seq::empty(),
            };
            &&& p.len() == if from >= n {
                0
            } else if n - from < limit {
                n - from
            } else {
                limit as int
            }
            &&& forall|k: int|
                0 <= k < p.len() ==> #[trigger] p[k] == (PurchaseAnswer {
                    tokens_amount: purchases@[from + k].tokens_amount,
                    timestamp: purchases@[from + k].timestamp,
                    unlock_time: purchases@[from + k].unlock_time,
                })
        }),
{
    let amount = purchases.len() as u32;
    let items = page(purchases, start, limit);
    let mut out: Vec<PurchaseAnswer> = Vec::new();
    let mut i: usize = 0;
    while i < items.len()
        invariant
            i <= items@.len(),
            out@ == items@.take(i as int).map_values(|p: Purchase| purchase_answer(p)),
        decreases items@.len() - i,
    {
        out.push(items[i].to_answer());
        assert(out@ =~= items@.take(i + 1).map_values(|p: Purchase| purchase_answer(p)));
        i = i + 1;
    }
    assert(items@.take(i as int) =~= items@);
    if archived {
        QueryAnswer::ArchivedPurchases { purchases: out, amount }
    } else {
        QueryAnswer::Purchases { purchases: out, amount }
    }
}

/// The number of sales a creator started and page `start` of their ids in
/// pages of `limit`.
pub fn ido_list_answer(ido_ids: &Vec<u32>, start: u32, limit: u32) -> (r: QueryAnswer)
    requires
        ido_ids@.len() <= u32::MAX,
        start * limit <= usize::MAX,
    ensures
        r matches QueryAnswer::IdoListOwnedBy { ido_ids: ids, amount } && amount == ido_ids@.len()
            && ids@ == page_of(ido_ids@, start, limit),
        // the page holds the ids from index `start * limit` on, at most `limit`
        r matches QueryAnswer::IdoListOwnedBy { ido_ids: ids, .. } && ({
            let from = start * limit;
            let n = ido_ids@.len();
            &&& ids@.len() == if from >= n {
                0
            } else if n - from < limit {
                n - from
            } else {
                limit as int
            }
            &&& forall|k: int| 0 <= k < ids@.len() ==> #[trigger] ids@[k] == ido_ids@[from + k]
        }),
{
    let amount = ido_ids.len() as u32;
    QueryAnswer::IdoListOwnedBy { ido_ids: page(ido_ids, start, limit), amount }
}

/// A buyer's totals as a query shows them: as stored, or all zero.
pub fn user_info_answer(user_info: Option<UserInfo>) -> (r: QueryAnswer)
    ensures
        user_info matches Some(u) ==> r == u.to_answer_spec(),
        user_info matches Some(u) ==> r == (QueryAnswer::UserInfo {
            total_payment: u.total_payment,
            total_tokens_bought: u.total_tokens_bought,
            total_tokens_received: u.total_tokens_received,
        }),
        user_info is None ==> r == (QueryAnswer::UserInfo {
            total_payment: 0,
            total_tokens_bought: 0,
            total_tokens_received: 0,
        }),
{
    let info = match user_info {
        Some(u) => u,
        None => UserInfo::default(),
    };
    info.to_answer()
}

} // verus!

verus! {

/// The tokens a purchase asks for: the uscrt sent when the sale is paid in
/// uscrt, else the amount in the message.
pub open spec fn buy_requested(ido: &Ido, sent_funds: Seq<Coin>, amount: u128) -> int {
    if ido.is_native_payment_spec() {
        sum_amounts(sent_funds)
    } else {
        amount as int
    }
}

/// The first checks of a purchase: the contract and the sale are active,
/// a sale paid in uscrt gets only uscrt, something is bought, and the sale
/// has tokens left. Returns the tokens asked for.
pub fn buy_amount(
    config: &Config,
    ido: &Ido,
    sent_funds: &Vec<Coin>,
    amount: u128,
    time: u64,
) -> (r: Result<u128, ContractError>)
    requires
        ido.is_native_payment_spec() ==> uscrt_prefix_fits(sent_funds@),
        (config.status == ContractStatus::Active.code() && ido.is_active_spec(time)) ==> ido.sold_amount
            <= ido.total_tokens_amount,
    ensures
        config.status != ContractStatus::Active.code() ==> r == Err::<u128, ContractError>(
            ContractError::ContractNotActive,
        ),
        config.status == ContractStatus::Active.code() && !ido.is_active_spec(time) ==> r == Err::<
            u128,
            ContractError,
        >(ContractError::IdoNotActive),
        config.status == ContractStatus::Active.code() && ido.is_active_spec(time) && (
        ido.is_native_payment_spec() && !all_uscrt(sent_funds@)) ==> r == Err::<u128, ContractError>(
            ContractError::UnsupportedToken,
        ),
        config.status == ContractStatus::Active.code() && ido.is_active_spec(time) && (
        !ido.is_native_payment_spec() || all_uscrt(sent_funds@)) ==> {
            let requested = buy_requested(ido, sent_funds@, amount);
            &&& requested == 0 ==> r == Err::<u128, ContractError>(ContractError::ZeroAmount)
            &&& requested != 0 && ido.remaining_amount_spec() == 0 ==> r == Err::<
                u128,
                ContractError,
            >(ContractError::AllTokensSold)
            &&& requested != 0 && ido.remaining_amount_spec() != 0 ==> r == Ok::<
                u128,
                ContractError,
            >(requested as u128)
        },
{
    crate::ido::utils::assert_contract_active(config)?;
    if !ido.is_active(time) {
        return Err(ContractError::IdoNotActive);
    }
    let mut amount = amount;
    if ido.is_native_payment() {
        proof {
            lemma_sum_amounts_nonneg(sent_funds@);
            if all_uscrt(sent_funds@) {
                let k = sent_funds@.len() as int;
                assert(sent_funds@.take(k) =~= sent_funds@);
                assert(all_uscrt(sent_funds@.take(k)));
            }
        }
        amount = crate::ido::utils::sent_funds(sent_funds)?;
    }
    if amount == 0 {
        return Err(ContractError::ZeroAmount);
    }
    let total_remaining_amount = ido.remaining_amount();
    if total_remaining_amount == 0 {
        return Err(ContractError::AllTokensSold);
    }
    Ok(amount)
}

/// The tier index at which a buyer buys: that of the tier the tier contract
/// and the NFT give (`tier`, looked up for whitelisted buyers only), else
/// that of the lowest tier.
pub fn buyer_tier_index(config: &Config, tier: Option<u8>) -> (r: u8)
    requires
        tier matches Some(t) ==> t >= 1,
        tier is None ==> config.min_tier_spec() >= 1,
    ensures
        tier matches Some(t) ==> r == t - 1,
        tier is None ==> r == config.min_tier_spec() - 1,
{
    match tier {
        Some(t) => crate::ido::tier::get_tier_index(t),
        None => config.min_tier_index(),
    }
}

/// The buyer's totals in the sale, as stored or all zero.
pub open spec fn stored_or_zero(u: Option<UserInfo>) -> UserInfo {
    match u {
        Some(v) => v,
        None => UserInfo { total_payment: 0, total_tokens_bought: 0, total_tokens_received: 0 },
    }
}

/// Most tokens the buyer can still pay for at tier index `tier`.
pub open spec fn buy_max_tokens(config: &Config, ido: &Ido, tier: u8, user_ido_info: Option<UserInfo>) -> int {
    (config.max_payments@[tier as int] - stored_or_zero(user_ido_info).total_payment) / (ido.price as int)
}

/// Most tokens the buyer can buy now: what the tier's payment allows, and
/// no more than is left for the tier.
pub open spec fn buy_limit(config: &Config, ido: &Ido, tier: u8, user_ido_info: Option<UserInfo>) -> int {
    let m = buy_max_tokens(config, ido, tier, user_ido_info);
    let left = ido.remaining_for_tier(tier);
    if m < left { m } else { left }
}

/// A buyer's totals are as stored, or all zero; a purchase asks for the
/// uscrt sent in a sale paid in uscrt and for the amount named otherwise; at
/// tier index `tier` the buyer can pay for as many tokens as the rest of
/// the tier's maximal payment covers at the sale's price, and buy no more
/// than that nor than what is left for the tier.
pub proof fn lemma_buy_terms(
    config: &Config,
    ido: &Ido,
    tier: u8,
    user_ido_info: Option<UserInfo>,
    sent_funds: Seq<Coin>,
    amount: u128,
)
    ensures
        user_ido_info matches Some(v) ==> stored_or_zero(user_ido_info) == v,
        user_ido_info is None ==> stored_or_zero(user_ido_info) == (UserInfo {
            total_payment: 0,
            total_tokens_bought: 0,
            total_tokens_received: 0,
        }),
        buy_requested(ido, sent_funds, amount) == if ido.payment_token_contract is None
            && ido.payment_token_hash is None {
            sum_amounts(sent_funds)
        } else {
            amount as int
        },
        ({
            let paid: int = match user_ido_info {
                Some(v) => v.total_payment as int,
                None => 0,
            };
            let most = (config.max_payments@[tier as int] - paid) / (ido.price as int);
            let left = ido.remaining_for_tier(tier);
            &&& buy_max_tokens(config, ido, tier, user_ido_info) == most
            &&& buy_limit(config, ido, tier, user_ido_info) == if most < left {
                most
            } else {
                left
            }
        }),
{
}

/// The purchase's arithmetic and indexing stay in range wherever the
/// contract reaches them (it aborts otherwise).
pub open spec fn buy_fits(
    config: &Config,
    ido: &Ido,
    tier: u8,
    amount: u128,
    user_ido_info: Option<UserInfo>,
    user_info: Option<UserInfo>,
) -> bool {
    let ui = stored_or_zero(user_ido_info);
    let u = stored_or_zero(user_info);
    let payment = amount * ido.price;
    &&& ido.remaining_tokens_per_tier matches Some(v) ==> tier < v@.len()
    &&& ido.remaining_tokens_per_tier is None ==> ido.sold_amount <= ido.total_tokens_amount
    &&& ido.remaining_for_tier(tier) != 0 ==> {
        &&& tier < config.max_payments@.len()
        &&& ui.total_payment <= config.max_payments@[tier as int]
        &&& ido.price > 0
    }
    &&& (ido.remaining_for_tier(tier) != 0 && buy_max_tokens(config, ido, tier, user_ido_info) != 0
        && amount <= buy_limit(config, ido, tier, user_ido_info)) ==> {
        &&& payment <= u128::MAX
        &&& tier < config.lock_periods@.len()
        &&& ido.end_time + config.lock_periods@[tier as int] <= u64::MAX
        &&& ui.total_payment + payment <= u128::MAX
        &&& ui.total_tokens_bought + amount <= u128::MAX
        &&& u.total_payment + payment <= u128::MAX
        &&& u.total_tokens_bought + amount <= u128::MAX
        &&& ido.sold_amount + amount <= u128::MAX
        &&& ido.total_payment + payment <= u128::MAX
        &&& ui.total_payment == 0 ==> ido.participants + 1 <= u64::MAX
        &&& !ido.is_native_payment_spec() ==> ido.payment_token_contract is Some
            && ido.payment_token_hash is Some
    }
}

/// Whether a purchase stays within the arithmetic and indexing that
/// `buy_tokens` requires (`buy_fits`).
pub fn buy_fits_check(
    config: &Config,
    ido: &Ido,
    tier: u8,
    amount: u128,
    user_ido_info: Option<UserInfo>,
    user_info: Option<UserInfo>,
) -> (r: bool)
    ensures
        r == buy_fits(config, ido, tier, amount, user_ido_info, user_info),
{
    let ui = match user_ido_info {
        Some(v) => v,
        None => UserInfo::default(),
    };
    let u = match user_info {
        Some(v) => v,
        None => UserInfo::default(),
    };
    match &ido.remaining_tokens_per_tier {
        Some(v) => {
            if tier as usize >= v.len() {
                return false;
            }
        },
        None => {
            if ido.sold_amount > ido.total_tokens_amount {
                return false;
            }
        },
    }
    let left = ido.remaining_tokens_per_tier(tier);
    if left == 0 {
        return true;
    }
    if tier as usize >= config.max_payments.len() {
        return false;
    }
    let max_payment = config.max_payments[tier as usize];
    if ui.total_payment > max_payment || ido.price == 0 {
        return false;
    }
    let max_tokens = (max_payment - ui.total_payment) / ido.price;
    let limit = if max_tokens < left {
        max_tokens
    } else {
        left
    };
    if max_tokens == 0 || amount > limit {
        return true;
    }
    let payment = match amount.checked_mul(ido.price) {
        Some(p) => p,
        None => {
            return false;
        },
    };
    if tier as usize >= config.lock_periods.len() {
        return false;
    }
    ido.end_time.checked_add(config.lock_periods[tier as usize]).is_some()
        && ui.total_payment.checked_add(payment).is_some()
        && ui.total_tokens_bought.checked_add(amount).is_some()
        && u.total_payment.checked_add(payment).is_some()
        && u.total_tokens_bought.checked_add(amount).is_some()
        && ido.sold_amount.checked_add(amount).is_some()
        && ido.total_payment.checked_add(payment).is_some()
        && (ui.total_payment != 0 || ido.participants.checked_add(1).is_some())
        && (ido.is_native_payment() || (ido.payment_token_contract.is_some()
            && ido.payment_token_hash.is_some()))
}

/// What a purchase stores and sends.
#[derive(Clone, Debug, PartialEq, Eq)]
pub struct BuyOutcome {
    /// Appended to the buyer's pending purchases in the sale.
    pub purchase: Purchase,
    /// The buyer's totals over all sales.
    pub user_info: UserInfo,
    /// The buyer's totals in the sale.
    pub user_ido_info: UserInfo,
    /// The payment, to the sale's creator.
    pub messages: Vec<IdoMsg>,
    pub answer: HandleAnswer,
}

/// Buys `amount` tokens at tier index `tier`. Refused when nothing is left
/// for the tier, when the buyer has paid the tier's maximum, and beyond
/// what the tier's maximum and the tier's tokens allow. The purchase is
/// released `lock_periods[tier]` after the sale's end; the payment (`amount`
/// uscrt, for a sale paid in uscrt) goes to the sale's creator `ido_admin`.
/// `payment_contract` is the human form of the payment token.
pub fn buy_tokens(
    config: &Config,
    ido: &mut Ido,
    tier: u8,
    amount: u128,
    user_ido_info: Option<UserInfo>,
    user_info: Option<UserInfo>,
    time: u64,
    sender: &String,
    contract: &String,
    ido_admin: &String,
    payment_contract: &String,
) -> (r: Result<BuyOutcome, ContractError>)
    requires
        buy_fits(config, old(ido), tier, amount, user_ido_info, user_info),
    ensures
        ({
            let i = *old(ido);
            let ui = stored_or_zero(user_ido_info);
            let u = stored_or_zero(user_info);
            let left = i.remaining_for_tier(tier);
            let max_tokens = buy_max_tokens(config, &i, tier, user_ido_info);
            let limit = buy_limit(config, &i, tier, user_ido_info);
            let payment = (amount * i.price) as u128;
            let unlock_time = (i.end_time + config.lock_periods@[tier as int]) as u64;
            &&& left == 0 ==> r == Err::<BuyOutcome, ContractError>(ContractError::AllTierTokensSold)
            &&& left != 0 && max_tokens == 0 ==> r == Err::<BuyOutcome, ContractError>(
                ContractError::TierLimitReached,
            )
            &&& left != 0 && max_tokens != 0 && amount > limit ==> r == Err::<
                BuyOutcome,
                ContractError,
            >(ContractError::BuyLimit { max: limit as u128 })
            &&& left != 0 && max_tokens != 0 && amount <= limit ==> (r matches Ok(o) && {
                &&& o.purchase == Purchase { tokens_amount: amount, timestamp: time, unlock_time }
                &&& o.user_ido_info == UserInfo {
                    total_payment: (ui.total_payment + payment) as u128,
                    total_tokens_bought: (ui.total_tokens_bought + amount) as u128,
                    total_tokens_received: ui.total_tokens_received,
                }
                &&& o.user_info == UserInfo {
                    total_payment: (u.total_payment + payment) as u128,
                    total_tokens_bought: (u.total_tokens_bought + amount) as u128,
                    total_tokens_received: u.total_tokens_received,
                }
                &&& *final(ido) == Ido {
                    sold_amount: (i.sold_amount + amount) as u128,
                    total_payment: (i.total_payment + payment) as u128,
                    remaining_tokens_per_tier: final(ido).remaining_tokens_per_tier,
                    participants: if ui.total_payment == 0 {
                        (i.participants + 1) as u64
                    } else {
                        i.participants
                    },
                    ..i
                }
                &&& i.remaining_tokens_per_tier is None ==> final(ido).remaining_tokens_per_tier is None
                &&& i.remaining_tokens_per_tier matches Some(v) ==> (final(ido).remaining_tokens_per_tier matches Some(w)
                    && w@ == v@.update(tier as int, (left - amount) as u128))
                &&& o.messages@ == if i.is_native_payment_spec() {
                    seq![
                        IdoMsg::BankSend {
                            from_address: *contract,
                            to_address: *ido_admin,
                            amount,
                        },
                    ]
                } else {
                    seq![
                        IdoMsg::Snip20TransferFrom {
                            owner: *sender,
                            recipient: *ido_admin,
                            amount: payment,
                            code_hash: i.payment_token_hash->0,
                            contract: *payment_contract,
                        },
                    ]
                }
                &&& o.answer == HandleAnswer::BuyTokens {
                    amount,
                    unlock_time,
                    status: ResponseStatus::Success,
                }
                // the buyer never pays more in a sale than the tier allows
                &&& o.user_ido_info.total_payment <= config.max_payments@[tier as int]
                // every token stays accounted for
                &&& tokens_accounted(&i) ==> tokens_accounted(&*final(ido))
                // the purchase adds to the pending purchases what it adds to
                // the tokens bought
                &&& forall|p: Seq<Purchase>|
                    purchases_balance(p, ui) ==> #[trigger] purchases_balance(
                        p.push(o.purchase),
                        o.user_ido_info,
                    )
            })
            &&& r is Err ==> *final(ido) == i
        }),
{
    let ghost i = *ido;
    let ghost old_user_ido_info = user_ido_info;
    let remaining_amount = ido.remaining_tokens_per_tier(tier);
    if remaining_amount == 0 {
        return Err(ContractError::AllTierTokensSold);
    }
    let mut user_ido_info = match user_ido_info {
        Some(v) => v,
        None => UserInfo::default(),
    };
    let max_tier_payment = config.max_payments[tier as usize];
    let current_payment = user_ido_info.total_payment;
    let available_payment = max_tier_payment.checked_sub(current_payment).unwrap();
    let max_tokens_amount = available_payment.checked_div(ido.price).unwrap();
    if max_tokens_amount == 0 {
        return Err(ContractError::TierLimitReached);
    }
    let can_buy_tokens = if max_tokens_amount < remaining_amount {
        max_tokens_amount
    } else {
        remaining_amount
    };
    if amount > can_buy_tokens {
        return Err(ContractError::BuyLimit { max: can_buy_tokens });
    }
    let payment = amount.checked_mul(ido.price).unwrap();
    proof {
        // paying for at most the affordable tokens stays within the tier's maximum
        let a = amount as int;
        let p = ido.price as int;
        let avail = available_payment as int;
        assert(a <= avail / p);
        assert(a * p <= avail) by (nonlinear_arith)
            requires
                a <= avail / p,
                p > 0,
                avail >= 0,
                a >= 0,
        ;
    }
    let lock_period = config.lock_periods[tier as usize];
    let unlock_time = ido.end_time.checked_add(lock_period).unwrap();
    let purchase = Purchase { timestamp: time, tokens_amount: amount, unlock_time };
    user_ido_info.total_payment = user_ido_info.total_payment.checked_add(payment).unwrap();
    user_ido_info.total_tokens_bought = user_ido_info.total_tokens_bought.checked_add(amount).unwrap();
    let mut user_info = match user_info {
        Some(v) => v,
        None => UserInfo::default(),
    };
    user_info.total_payment = user_info.total_payment.checked_add(payment).unwrap();
    user_info.total_tokens_bought = user_info.total_tokens_bought.checked_add(amount).unwrap();
    ido.sold_amount = ido.sold_amount.checked_add(amount).unwrap();
    ido.total_payment = ido.total_payment.checked_add(payment).unwrap();
    if let Some(tokens_per_tier) = &mut ido.remaining_tokens_per_tier {
        tokens_per_tier.set(tier as usize, remaining_amount.checked_sub(amount).unwrap());
    }
    proof {
        // the tier's tokens go down by what its sold tokens go up
        if let Some(v) = i.remaining_tokens_per_tier {
            let w = v@.update(tier as int, (remaining_amount - amount) as u128);
            lemma_sum_u128_update(v@, tier as int, (remaining_amount - amount) as u128);
            lemma_sum_u128_nonneg(w);
        }
    }
    if current_payment == 0 {
        ido.participants = ido.participants.checked_add(1).unwrap();
    }
    let mut messages: Vec<IdoMsg> = Vec::new();
    if !ido.is_native_payment() {
        let token_contract_hash = match &ido.payment_token_hash {
            Some(h) => h.clone(),
            None => String::new(),
        };
        messages.push(
            IdoMsg::Snip20TransferFrom {
                owner: sender.clone(),
                recipient: ido_admin.clone(),
                amount: payment,
                code_hash: token_contract_hash,
                contract: payment_contract.clone(),
            },
        );
    } else {
        messages.push(
            IdoMsg::BankSend { from_address: contract.clone(), to_address: ido_admin.clone(), amount },
        );
    }
    let answer = HandleAnswer::BuyTokens { unlock_time, amount, status: ResponseStatus::Success };
    assert forall|p: Seq<Purchase>| purchases_balance(p, stored_or_zero(old_user_ido_info)) implies #[trigger] purchases_balance(
        p.push(purchase),
        user_ido_info,
    ) by {
        assert(p.push(purchase).drop_last() =~= p);
    }
    Ok(BuyOutcome { purchase, user_info, user_ido_info, messages, answer })
}

} // verus!

verus! {

/// The tokens of a list of purchases.
pub open spec fn tokens_of(purchases: Seq<Purchase>) -> int
    decreases purchases.len(),
{
    if purchases.len() == 0 {
        0
    } else {
        tokens_of(purchases.drop_last()) + purchases.last().tokens_amount
    }
}

/// Tokens add up purchase by purchase: none for no purchase, and one more
/// purchase adds its tokens.
pub proof fn lemma_tokens_of(purchases: Seq<Purchase>, p: Purchase)
    ensures
        tokens_of(Seq::<Purchase>::empty()) == 0,
        tokens_of(purchases.push(p)) == tokens_of(purchases) + p.tokens_amount,
{
    assert(purchases.push(p).drop_last() =~= purchases);
}

/// A buyer's pending purchases and received tokens make up the tokens the
/// buyer bought.
pub open spec fn purchases_balance(pending: Seq<Purchase>, user: UserInfo) -> bool {
    tokens_of(pending) + user.total_tokens_received == user.total_tokens_bought
}

/// Removing one purchase removes its tokens.
proof fn lemma_tokens_of_remove(s: Seq<Purchase>, i: int)
    requires
        0 <= i < s.len(),
    ensures
        tokens_of(s.remove(i)) + s[i].tokens_amount == tokens_of(s),
    decreases s.len(),
{
    if i < s.len() - 1 {
        assert(s.remove(i).drop_last() =~= s.drop_last().remove(i));
        assert(s.remove(i).last() == s.last());
        lemma_tokens_of_remove(s.drop_last(), i);
    } else {
        assert(s.remove(i) =~= s.drop_last());
    }
}

/// The tokens of a purchase followed by others.
proof fn lemma_tokens_of_prepend(x: Purchase, t: Seq<Purchase>)
    ensures
        tokens_of(seq![x] + t) == x.tokens_amount + tokens_of(t),
    decreases t.len(),
{
    if t.len() > 0 {
        assert((seq![x] + t).drop_last() =~= seq![x] + t.drop_last());
        assert((seq![x] + t).last() == t.last());
        lemma_tokens_of_prepend(x, t.drop_last());
    } else {
        assert(seq![x] + t =~= seq![x]);
        assert(seq![x].drop_last() =~= Seq::<Purchase>::empty());
        assert(tokens_of(seq![x]) == tokens_of(Seq::<Purchase>::empty()) + x.tokens_amount);
    }
}

/// Removals split the tokens between what is left and what is taken out.
proof fn lemma_tokens_of_removal(s: Seq<Purchase>, pos: Seq<int>)
    requires
        removable(s, pos),
    ensures
        tokens_of(removed(s, pos)) + tokens_of(removed_items(s, pos)) == tokens_of(s),
    decreases pos.len(),
{
    if pos.len() == 0 {
        assert(removed_items(s, pos) =~= Seq::<Purchase>::empty());
    } else {
        let s2 = s.remove(pos[0]);
        lemma_tokens_of_removal(s2, pos.drop_first());
        lemma_tokens_of_remove(s, pos[0]);
        lemma_tokens_of_prepend(s[pos[0]], removed_items(s2, pos.drop_first()));
    }
}

/// The tokens of the picked purchases, taken in index order.
proof fn lemma_picked_tokens_items(s: Seq<Purchase>, n: nat, pick: spec_fn(int) -> bool)
    requires
        n <= s.len(),
    ensures
        tokens_of(
            Seq::new(picked_indices(n, pick).len(), |k: int| s[picked_indices(n, pick)[k]]),
        ) == picked_tokens(s, n, pick),
    decreases n,
{
    if n > 0 {
        lemma_picked_tokens_items(s, (n - 1) as nat, pick);
        let p = picked_indices((n - 1) as nat, pick);
        let before = Seq::new(p.len(), |k: int| s[p[k]]);
        let now = Seq::new(picked_indices(n, pick).len(), |k: int| s[picked_indices(n, pick)[k]]);
        if pick(n - 1) {
            assert(now.drop_last() =~= before);
            assert(now.last() == s[n - 1]);
        } else {
            assert(now =~= before);
        }
    }
}

/// A release moves tokens from the buyer's pending purchases to the tokens
/// received: when the pending purchases and the received tokens made up the
/// tokens bought, what stays pending and the tokens received after the
/// release (`recv_finish` adds the released `amount`) still do.
pub proof fn lemma_release_keeps_balance(
    purchases: Seq<Purchase>,
    pos: Seq<int>,
    amount: int,
    user: UserInfo,
)
    requires
        removable(purchases, pos),
        amount == tokens_of(removed_items(purchases, pos)),
        purchases_balance(purchases, user),
    ensures
        tokens_of(removed(purchases, pos)) + (user.total_tokens_received + amount)
            == user.total_tokens_bought,
{
    lemma_tokens_of_removal(purchases, pos);
}

/// Whether a purchase is released at `time`.
pub open spec fn released(time: u64) -> spec_fn(Purchase) -> bool {
    |p: Purchase| time >= p.unlock_time
}

/// The purchases a release takes: those released at `time` that are among
/// the `limit` from `start` on, or whose index is listed in `explicit`.
pub open spec fn recv_pick(
    purchases: Seq<Purchase>,
    start: u32,
    limit: u32,
    explicit: Seq<u32>,
    time: u64,
) -> spec_fn(int) -> bool {
    |j: int|
        0 <= j < purchases.len() && time >= purchases[j].unlock_time && ((start <= j < start
            + limit) || explicit.contains(j as u32))
}

/// A release picks the purchase at `j` exactly when it exists, is unlocked
/// at `time`, and lies in the `limit` purchases from `start` on or is
/// listed.
pub proof fn lemma_recv_pick(
    purchases: Seq<Purchase>,
    start: u32,
    limit: u32,
    explicit: Seq<u32>,
    time: u64,
    j: int,
)
    ensures
        recv_pick(purchases, start, limit, explicit, time)(j) <==> (0 <= j < purchases.len() && time
            >= purchases[j].unlock_time && ((start <= j && j < start + limit)
            || explicit.contains(j as u32))),
{
}

/// Some listed index lies outside the range looked at and past the end.
pub open spec fn recv_out_of_bounds(len: nat, start: u32, limit: u32, explicit: Seq<u32>) -> bool {
    exists|k: int|
        0 <= k < explicit.len() && !(start <= #[trigger] explicit[k] < start + limit)
            && explicit[k] >= len
}

/// The tokens of the purchases at the picked indices below `n`.
pub open spec fn picked_tokens(purchases: Seq<Purchase>, n: nat, pick: spec_fn(int) -> bool) -> int
    decreases n,
{
    if n == 0 {
        0
    } else {
        picked_tokens(purchases, (n - 1) as nat, pick) + if pick(n - 1) {
            purchases[n - 1].tokens_amount as int
        } else {
            0
        }
    }
}

/// Picked tokens add up index by index: none below 0, and index `n` adds
/// its tokens when it is picked.
pub proof fn lemma_picked_tokens(purchases: Seq<Purchase>, n: nat, pick: spec_fn(int) -> bool)
    ensures
        picked_tokens(purchases, 0, pick) == 0,
        picked_tokens(purchases, n + 1, pick) == picked_tokens(purchases, n, pick) + if pick(n as int) {
            purchases[n as int].tokens_amount as int
        } else {
            0
        },
{
}

/// The picked tokens below `k` are at most those below `n`.
proof fn lemma_picked_tokens_prefix(purchases: Seq<Purchase>, n: nat, k: nat, pick: spec_fn(int) -> bool)
    requires
        k <= n,
    ensures
        picked_tokens(purchases, k, pick) <= picked_tokens(purchases, n, pick),
    decreases n,
{
    if k < n {
        lemma_picked_tokens_prefix(purchases, (n - 1) as nat, k, pick);
    }
}

/// What a release removes and pays out.
#[derive(Clone, Debug, PartialEq, Eq)]
pub struct RecvPlan {
    /// Positions at which to remove, one after the other, from the buyer's
    /// pending purchases; each removed purchase is archived.
    pub remove_positions: Vec<u32>,
    /// The tokens released.
    pub amount: u128,
}

/// The arguments of a release with their defaults: start 0, limit 300, no
/// listed indices.
pub open spec fn recv_args(start: Option<u32>, limit: Option<u32>, purchase_indices: Option<Vec<u32>>) -> (
    u32,
    u32,
    Seq<u32>,
) {
    (
        start.unwrap_or(0),
        limit.unwrap_or(300),
        match purchase_indices {
            Some(v) => v@,
            None => Seq::empty(),
        },
    )
}

/// Releases the buyer's purchases that are unlocked at `time` among the
/// `limit` (300 by default) from `start` (0 by default) on, and those at the
/// listed indices, each once. A listed index outside that range and past
/// the end is refused; releasing no token is refused.
pub fn recv_tokens(
    config: &Config,
    purchases: &Vec<Purchase>,
    start: Option<u32>,
    limit: Option<u32>,
    purchase_indices: Option<Vec<u32>>,
    time: u64,
) -> (r: Result<RecvPlan, ContractError>)
    requires
        purchases@.len() <= u32::MAX,
        purchase_indices is Some ==> start.unwrap_or(0) + limit.unwrap_or(300) <= u32::MAX,
        ({
            let (s, l, ex) = recv_args(start, limit, purchase_indices);
            picked_tokens(purchases@, purchases@.len(), recv_pick(purchases@, s, l, ex, time))
                <= u128::MAX
        }),
    ensures
        ({
            let (s, l, ex) = recv_args(start, limit, purchase_indices);
            let pick = recv_pick(purchases@, s, l, ex, time);
            let idx = picked_indices(purchases@.len(), pick);
            let amount = picked_tokens(purchases@, purchases@.len(), pick);
            &&& config.status != ContractStatus::Active.code() ==> r == Err::<
                RecvPlan,
                ContractError,
            >(ContractError::ContractNotActive)
            &&& config.status == ContractStatus::Active.code() && recv_out_of_bounds(
                purchases@.len(),
                s,
                l,
                ex,
            ) ==> r == Err::<RecvPlan, ContractError>(ContractError::OutOfBounds)
            &&& config.status == ContractStatus::Active.code() && !recv_out_of_bounds(
                purchases@.len(),
                s,
                l,
                ex,
            ) && amount == 0 ==> r == Err::<RecvPlan, ContractError>(ContractError::NothingToReceive)
            &&& config.status == ContractStatus::Active.code() && !recv_out_of_bounds(
                purchases@.len(),
                s,
                l,
                ex,
            ) && amount != 0 ==> (r matches Ok(plan) && {
                let pos = as_ints(plan.remove_positions@);
                &&& pos == shifted_positions(idx)
                &&& plan.amount == amount
                &&& removable(purchases@, pos)
                // the tokens paid out are those of the purchases taken out
                &&& tokens_of(removed_items(purchases@, pos)) == plan.amount
                // what is taken out are the picked purchases, in order, all released
                &&& removed_items(purchases@, pos) == Seq::new(idx.len(), |k: int| purchases@[idx[k]])
                &&& forall|k: int|
                    0 <= k < removed_items(purchases@, pos).len() ==> time
                        >= #[trigger] removed_items(purchases@, pos)[k].unlock_time
                // nothing is lost: pending and archived purchases hold what was pending
                &&& removed(purchases@, pos).to_multiset().add(
                    removed_items(purchases@, pos).to_multiset(),
                ) =~= purchases@.to_multiset()
                // by default, exactly the purchases not yet released stay, in order
                &&& (start.unwrap_or(0) == 0 && l >= purchases@.len() && purchase_indices is None)
                    ==> removed(purchases@, pos) == unselected(purchases@, released(time))
            })
        }),
        // a plain release over at most 300 pending purchases takes every
        // released one and keeps exactly those still locked, in order; it is
        // refused only when no released purchase holds any token
        (config.status == ContractStatus::Active.code() && start is None && limit is None
            && purchase_indices is None && purchases@.len() <= 300) ==> {
            &&& (exists|j: int|
                0 <= j < purchases@.len() && time >= purchases@[j].unlock_time
                    && #[trigger] purchases@[j].tokens_amount > 0) ==> (r matches Ok(plan)
                && removed(purchases@, as_ints(plan.remove_positions@)) == unselected(
                purchases@,
                released(time),
            ))
            &&& (forall|j: int|
                0 <= j < purchases@.len() && time >= purchases@[j].unlock_time
                    ==> #[trigger] purchases@[j].tokens_amount == 0) ==> r == Err::<
                RecvPlan,
                ContractError,
            >(ContractError::NothingToReceive)
        },
{
    crate::ido::utils::assert_contract_active(config)?;
    let ghost (s_g, l_g, ex_g) = recv_args(start, limit, purchase_indices);
    let ghost pick = recv_pick(purchases@, s_g, l_g, ex_g, time);
    proof {
        if start is None && limit is None && purchase_indices is None && purchases@.len() <= 300 {
            assert(ex_g =~= Seq::<u32>::empty());
            assert(s_g == 0 && l_g == 300);
            assert(!recv_out_of_bounds(purchases@.len(), s_g, l_g, ex_g));
            assert forall|j: int| 0 <= j < purchases@.len() implies pick(j) == (time
                >= purchases@[j].unlock_time) by {}
            lemma_picked_tokens_zero(purchases@, purchases@.len(), pick);
        }
    }
    let start_v: u32 = match start {
        Some(s) => s,
        None => 0,
    };
    let limit_v: u32 = match limit {
        Some(l) => l,
        None => 300,
    };
    assert(s_g == start_v && l_g == limit_v);
    let len = purchases.len();
    let mut marks: Vec<bool> = Vec::new();
    let mut j: usize = 0;
    while j < len
        invariant
            j <= len == purchases@.len(),
            marks@.len() == j,
            forall|m: int| 0 <= m < j ==> !marks@[m],
        decreases len - j,
    {
        marks.push(false);
        j = j + 1;
    }
    // the purchases in the range looked at
    let from = if (start_v as usize) < len { start_v as usize } else { len };
    let to = if (limit_v as usize) <= len - from { from + limit_v as usize } else { len };
    let mut idx = from;
    while idx < to
        invariant
            from <= idx <= to <= len == purchases@.len(),
            marks@.len() == len,
            from == if start_v < len { start_v as int } else { len as int },
            to == if from + limit_v < len { from + limit_v } else { len as int },
            forall|m: int|
                0 <= m < len ==> marks@[m] == (from <= m < idx && time
                    >= purchases@[m].unlock_time),
        decreases to - idx,
    {
        if time >= purchases[idx].unlock_time {
            marks.set(idx, true);
        }
        idx = idx + 1;
    }
    assert forall|m: int| 0 <= m < len implies marks@[m] == (time >= purchases@[m].unlock_time && (
    start_v <= m < start_v + limit_v)) by {}
    // the listed purchases outside that range
    if let Some(listed) = &purchase_indices {
        let end = start_v.checked_add(limit_v).unwrap();
        let mut k: usize = 0;
        while k < listed.len()
            invariant
                k <= listed@.len(),
                ex_g == listed@,
                end == start_v + limit_v,
                s_g == start_v && l_g == limit_v,
                (s_g, l_g, ex_g) == recv_args(start, limit, purchase_indices),
                config.status == ContractStatus::Active.code(),
                len <= u32::MAX,
                marks@.len() == len == purchases@.len(),
                forall|q: int| 0 <= q < k ==> (start_v <= #[trigger] listed@[q] < end) || listed@[q] < len,
                forall|m: int|
                    0 <= m < len ==> marks@[m] == (time >= purchases@[m].unlock_time && ((start_v <= m
                        < start_v + limit_v) || listed@.take(k as int).contains(m as u32))),
            decreases listed@.len() - k,
        {
            let index = listed[k];
            assert(listed@.take(k + 1) =~= listed@.take(k as int).push(index));
            assert forall|m: int| 0 <= m < len implies #[trigger] listed@.take(k + 1).contains(m as u32) == (
            listed@.take(k as int).contains(m as u32) || m == index) by {
                if m == index {
                    assert(listed@.take(k + 1)[k as int] == index);
                }
                if listed@.take(k + 1).contains(m as u32) && m != index {
                    let q = choose|q: int| 0 <= q < k + 1 && #[trigger] listed@.take(k + 1)[q] == m as u32;
                    assert(listed@.take(k as int)[q] == m as u32);
                }
                if listed@.take(k as int).contains(m as u32) {
                    let q = choose|q: int| 0 <= q < k && #[trigger] listed@.take(k as int)[q] == m as u32;
                    assert(listed@.take(k + 1)[q] == m as u32);
                }
            }
            if index >= start_v && index < end {
                k = k + 1;
                continue;
            }
            if index as usize >= len {
                assert(recv_out_of_bounds(purchases@.len(), s_g, l_g, ex_g)) by {
                    let kk = k as int;
                    assert(0 <= kk < ex_g.len());
                    assert(ex_g[kk] == index);
                    assert(!(s_g <= ex_g[kk] < s_g + l_g));
                    assert(ex_g[kk] >= purchases@.len());
                }
                return Err(ContractError::OutOfBounds);
            }
            if time >= purchases[index as usize].unlock_time {
                marks.set(index as usize, true);
            }
            k = k + 1;
        }
        assert(listed@.take(k as int) =~= listed@);
        assert(!recv_out_of_bounds(purchases@.len(), s_g, l_g, ex_g));
    } else {
        assert(ex_g =~= Seq::<u32>::empty());
        assert(!recv_out_of_bounds(purchases@.len(), s_g, l_g, ex_g));
    }
    assert forall|m: int| 0 <= m < len implies marks@[m] == pick(m) by {}
    // the picked purchases, in increasing order
    let mut remove_positions: Vec<u32> = Vec::new();
    let mut amount: u128 = 0;
    let mut m: usize = 0;
    while m < len
        invariant
            m <= len == purchases@.len() <= u32::MAX,
            marks@.len() == len,
            forall|q: int| 0 <= q < len ==> marks@[q] == pick(q),
            picked_tokens(purchases@, len as nat, pick) <= u128::MAX,
            as_ints(remove_positions@) == shifted_positions(picked_indices(m as nat, pick)),
            amount == picked_tokens(purchases@, m as nat, pick),
        decreases len - m,
    {
        proof {
            lemma_picked_indices(m as nat, pick);
            lemma_picked_tokens_prefix(purchases@, len as nat, (m + 1) as nat, pick);
        }
        if marks[m] {
            let ghost p = picked_indices(m as nat, pick);
            let shift = remove_positions.len();
            assert(shift == p.len()) by {
                assert(as_ints(remove_positions@).len() == remove_positions@.len());
            }
            assert(shift <= m) by {
                lemma_picked_count(m as nat, pick);
            }
            let ghost before = remove_positions@;
            remove_positions.push((m - shift) as u32);
            assert(as_ints(remove_positions@) =~= as_ints(before).push(m - shift));
            assert(shifted_positions(p.push(m as int)) =~= shifted_positions(p).push(m - p.len()));
            amount = amount + purchases[m].tokens_amount;
        }
        m = m + 1;
    }
    if amount == 0 {
        return Err(ContractError::NothingToReceive);
    }
    proof {
        let idx = picked_indices(len as nat, pick);
        lemma_picked_indices(len as nat, pick);
        lemma_remove_at_indices(purchases@, idx);
        let pos = shifted_positions(idx);
        lemma_removal_multiset(purchases@, pos);
        lemma_picked_tokens_items(purchases@, len as nat, pick);
        assert forall|k: int| 0 <= k < removed_items(purchases@, pos).len() implies time
            >= #[trigger] removed_items(purchases@, pos)[k].unlock_time by {
            assert(removed_items(purchases@, pos)[k] == purchases@[idx[k]]);
        }
        if start_v == 0 && limit_v as int >= len && purchase_indices is None {
            let sel = released(time);
            assert forall|q: int| 0 <= q < purchases@.len() implies pick(q) == sel(
                #[trigger] purchases@[q],
            ) by {}
            lemma_picked_is_selected(purchases@, sel, pick);
            assert(purchases@ =~= purchases@ + Seq::<Purchase>::empty());
            lemma_remove_selected(purchases@, Seq::<Purchase>::empty(), sel);
            assert(unselected(purchases@, sel) + Seq::<Purchase>::empty() =~= unselected(
                purchases@,
                sel,
            ));
        }
    }
    Ok(RecvPlan { remove_positions, amount })
}

/// Whether `list` holds `x`.
fn holds_u32(list: &Vec<u32>, x: u32) -> (r: bool)
    ensures
        r == list@.contains(x),
{
    let mut k: usize = 0;
    while k < list.len()
        invariant
            k <= list@.len(),
            forall|q: int| 0 <= q < k ==> list@[q] != x,
        decreases list@.len() - k,
    {
        if list[k] == x {
            assert(list@[k as int] == x);
            return true;
        }
        k = k + 1;
    }
    false
}

/// Whether the tokens a release would pay out fit in a `u128`, as
/// `recv_tokens` requires.
pub fn recv_fits(
    purchases: &Vec<Purchase>,
    start: Option<u32>,
    limit: Option<u32>,
    purchase_indices: &Option<Vec<u32>>,
    time: u64,
) -> (r: bool)
    requires
        purchases@.len() <= u32::MAX,
    ensures
        r == ({
            let (s, l, ex) = recv_args(start, limit, *purchase_indices);
            picked_tokens(purchases@, purchases@.len(), recv_pick(purchases@, s, l, ex, time))
                <= u128::MAX
        }),
{
    let ghost (s_g, l_g, ex_g) = recv_args(start, limit, *purchase_indices);
    let ghost pick = recv_pick(purchases@, s_g, l_g, ex_g, time);
    let start_v: u32 = match start {
        Some(s) => s,
        None => 0,
    };
    let limit_v: u32 = match limit {
        Some(l) => l,
        None => 300,
    };
    let len = purchases.len();
    let mut sum: u128 = 0;
    let mut j: usize = 0;
    while j < len
        invariant
            j <= len == purchases@.len() <= u32::MAX,
            s_g == start_v && l_g == limit_v,
            (s_g, l_g, ex_g) == recv_args(start, limit, *purchase_indices),
            ex_g == match *purchase_indices {
                Some(v) => v@,
                None => Seq::<u32>::empty(),
            },
            pick == recv_pick(purchases@, s_g, l_g, ex_g, time),
            sum == picked_tokens(purchases@, j as nat, pick),
        decreases len - j,
    {
        let in_range = (j as u64) >= (start_v as u64) && (j as u64) < (start_v as u64) + (
        limit_v as u64);
        let listed = match purchase_indices {
            Some(v) => holds_u32(v, j as u32),
            None => false,
        };
        let picked = time >= purchases[j].unlock_time && (in_range || listed);
        assert(picked == pick(j as int));
        if picked {
            match sum.checked_add(purchases[j].tokens_amount) {
                Some(v) => {
                    sum = v;
                },
                None => {
                    proof {
                        assert(picked_tokens(purchases@, (j + 1) as nat, pick) == sum
                            + purchases@[j as int].tokens_amount);
                        lemma_picked_tokens_prefix(purchases@, len as nat, (j + 1) as nat, pick);
                    }
                    return false;
                },
            }
        }
        j = j + 1;
    }
    true
}

/// No token is picked below `n` exactly when every picked purchase below
/// `n` holds none.
proof fn lemma_picked_tokens_zero(s: Seq<Purchase>, n: nat, pick: spec_fn(int) -> bool)
    requires
        n <= s.len(),
    ensures
        picked_tokens(s, n, pick) >= 0,
        picked_tokens(s, n, pick) == 0 <==> (forall|j: int|
            0 <= j < n && pick(j) ==> #[trigger] s[j].tokens_amount == 0),
    decreases n,
{
    if n > 0 {
        lemma_picked_tokens_zero(s, (n - 1) as nat, pick);
        if picked_tokens(s, n, pick) == 0 {
            assert forall|j: int| 0 <= j < n && pick(j) implies #[trigger] s[j].tokens_amount
                == 0 by {
                if j < n - 1 {
                }
            }
        }
    }
}

/// A purchase is released once its unlock time has come.
pub proof fn lemma_released(time: u64, p: Purchase)
    ensures
        released(time)(p) <==> time >= p.unlock_time,
{
}

/// A release starts at `start` (0 by default), looks at `limit` purchases
/// (300 by default) and at the listed indices (none by default).
pub proof fn lemma_recv_args(start: Option<u32>, limit: Option<u32>, purchase_indices: Option<Vec<u32>>)
    ensures
        recv_args(start, limit, purchase_indices) == (
            match start {
                Some(s) => s,
                None => 0u32,
            },
            match limit {
                Some(l) => l,
                None => 300u32,
            },
            match purchase_indices {
                Some(v) => v@,
                None => Seq::<u32>::empty(),
            },
        ),
        recv_args(None, None, None) == (0u32, 300u32, Seq::<u32>::empty()),
{
}

/// A release is out of bounds exactly when some listed index outside the
/// purchases looked at lies past the end.
pub proof fn lemma_recv_out_of_bounds(len: nat, start: u32, limit: u32, explicit: Seq<u32>)
    ensures
        recv_out_of_bounds(len, start, limit, explicit) <==> exists|k: int|
            0 <= k < explicit.len() && !(start <= #[trigger] explicit[k] && explicit[k] < start
                + limit) && explicit[k] >= len,
{
}

/// No more indices are picked below `n` than there are.
proof fn lemma_picked_count(n: nat, pick: spec_fn(int) -> bool)
    ensures
        picked_indices(n, pick).len() <= n,
    decreases n,
{
    if n > 0 {
        lemma_picked_count((n - 1) as nat, pick);
    }
}

/// What releasing tokens stores and sends.
#[derive(Clone, Debug, PartialEq, Eq)]
pub struct RecvOutcome {
    /// The buyer's totals over all sales.
    pub user_info: UserInfo,
    /// The buyer's totals in the sale.
    pub user_ido_info: UserInfo,
    /// Every token bought in the sale is now received: the sale leaves the
    /// buyer's active sales.
    pub finished: bool,
    /// Transfer of the released tokens to the buyer.
    pub messages: Vec<IdoMsg>,
    pub answer: HandleAnswer,
}

/// Records `amount` more tokens received by the buyer (`sender`) and sends
/// them; `token_contract` is the human form of the sale's token.
pub fn recv_finish(
    user_info: UserInfo,
    user_ido_info: UserInfo,
    amount: u128,
    ido: &Ido,
    sender: &String,
    token_contract: &String,
) -> (r: RecvOutcome)
    requires
        user_info.total_tokens_received + amount <= u128::MAX,
        user_ido_info.total_tokens_received + amount <= u128::MAX,
    ensures
        r.user_info == (UserInfo {
            total_tokens_received: (user_info.total_tokens_received + amount) as u128,
            ..user_info
        }),
        r.user_ido_info == (UserInfo {
            total_tokens_received: (user_ido_info.total_tokens_received + amount) as u128,
            ..user_ido_info
        }),
        r.finished == (user_ido_info.total_tokens_bought == user_ido_info.total_tokens_received
            + amount),
        r.messages@ == seq![
            IdoMsg::Snip20Transfer {
                recipient: *sender,
                amount,
                code_hash: ido.token_contract_hash,
                contract: *token_contract,
            },
        ],
        r.answer == (HandleAnswer::RecvTokens { amount, status: ResponseStatus::Success }),
{
    let mut user_info = user_info;
    let mut user_ido_info = user_ido_info;
    user_info.total_tokens_received = user_info.total_tokens_received.checked_add(amount).unwrap();
    user_ido_info.total_tokens_received = user_ido_info.total_tokens_received.checked_add(
        amount,
    ).unwrap();
    let finished = user_ido_info.total_tokens_bought == user_ido_info.total_tokens_received;
    let mut messages: Vec<IdoMsg> = Vec::new();
    messages.push(
        IdoMsg::Snip20Transfer {
            recipient: sender.clone(),
            amount,
            code_hash: ido.token_contract_hash.clone(),
            contract: token_contract.clone(),
        },
    );
    RecvOutcome {
        user_info,
        user_ido_info,
        finished,
        messages,
        answer: HandleAnswer::RecvTokens { amount, status: ResponseStatus::Success },
    }
}

} // verus!
