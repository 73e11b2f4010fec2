//! Values and helpers that both contracts use: coins sent with a message,
//! comparison of canonical addresses, and paging of stored lists.
use vstd::prelude::*;
use crate::error::ContractError;

verus! {

/// The native denomination of the chain.
pub const USCRT: &'static str = "uscrt";

/// The characters of the native denomination.
pub open spec fn uscrt_denom() -> Seq<char> {
    seq!['u', 's', 'c', 'r', 't']
}

/// An amount of one denomination.
#[derive(Debug, PartialEq, Eq)]
pub struct Coin {
    pub denom: String,
    pub amount: u128,
}

impl Clone for Coin {
    fn clone(&self) -> (r: Self)
        ensures
            r == *self,
    {
        Coin { denom: self.denom.clone(), amount: self.amount }
    }
}

/// A `String` holding the native denomination.
pub fn uscrt_string() -> (r: String)
    ensures
        r@ == uscrt_denom(),
{
    proof {
        reveal_strlit("uscrt");
    }
    String::from_str(USCRT)
}

/// An owned copy of `s`.
pub fn string_of(s: &str) -> (r: String)
    ensures
        r@ == s@,
{
    String::from_str(s)
}

/// A coin of `amount` uscrt.
pub fn uscrt_coin(amount: u128) -> (r: Coin)
    ensures
        r.denom@ == uscrt_denom(),
        r.amount == amount,
{
    Coin { denom: uscrt_string(), amount }
}

/// The sum of the amounts of `coins`.
pub open spec fn sum_amounts(coins: Seq<Coin>) -> int
    decreases coins.len(),
{
    if coins.len() == 0 {
        0
    } else {
        sum_amounts(coins.drop_last()) + coins.last().amount
    }
}

/// A sum of amounts is never negative.
pub proof fn lemma_sum_amounts_nonneg(coins: Seq<Coin>)
    ensures
        sum_amounts(coins) >= 0,
    decreases coins.len(),
{
    if coins.len() > 0 {
        lemma_sum_amounts_nonneg(coins.drop_last());
    }
}

/// Amounts add up front to back: nothing for no coin, and one more coin
/// adds its amount.
pub proof fn lemma_sum_amounts(coins: Seq<Coin>, c: Coin)
    ensures
        sum_amounts(Seq::<Coin>::empty()) == 0,
        sum_amounts(coins.push(c)) == sum_amounts(coins) + c.amount,
{
    assert(coins.push(c).drop_last() =~= coins);
}

/// Every coin of `coins` is uscrt.
pub open spec fn all_uscrt(coins: Seq<Coin>) -> bool {
    forall|i: int| 0 <= i < coins.len() ==> #[trigger] coins[i].denom@ == uscrt_denom()
}

/// Coins are all uscrt when there are none, and one more coin keeps them so
/// exactly when it is uscrt.
pub proof fn lemma_all_uscrt(coins: Seq<Coin>, c: Coin)
    ensures
        all_uscrt(Seq::<Coin>::empty()),
        all_uscrt(coins.push(c)) <==> (all_uscrt(coins) && c.denom@ == seq!['u', 's', 'c', 'r', 't']),
{
    if all_uscrt(coins.push(c)) {
        assert forall|i: int| 0 <= i < coins.len() implies #[trigger] coins[i].denom@ == uscrt_denom() by {
            assert(coins.push(c)[i] == coins[i]);
        }
        assert(coins.push(c)[coins.len() as int] == c);
    }
}

/// No run of uscrt coins at the front of `coins` sums beyond `u128::MAX`.
pub open spec fn uscrt_prefix_fits(coins: Seq<Coin>) -> bool {
    forall|k: int|
        0 <= k <= coins.len() && all_uscrt(#[trigger] coins.take(k)) ==> sum_amounts(coins.take(k))
            <= u128::MAX
}

/// Whether `uscrt_prefix_fits` holds of `coins`: summing them front to back
/// stops at a coin of another denomination before any sum of uscrt passes
/// `u128::MAX`.
pub fn uscrt_fits(coins: &Vec<Coin>) -> (r: bool)
    ensures
        r == uscrt_prefix_fits(coins@),
{
    let denom = uscrt_string();
    let mut funds: u128 = 0;
    let mut i: usize = 0;
    while i < coins.len()
        invariant
            i <= coins@.len(),
            denom@ == uscrt_denom(),
            all_uscrt(coins@.take(i as int)),
            funds == sum_amounts(coins@.take(i as int)),
            forall|k: int| 0 <= k <= i ==> sum_amounts(#[trigger] coins@.take(k)) <= u128::MAX,
        decreases coins@.len() - i,
    {
        assert(coins@.take(i + 1).drop_last() =~= coins@.take(i as int));
        if coins[i].denom != denom {
            assert forall|k: int|
                0 <= k <= coins@.len() && all_uscrt(#[trigger] coins@.take(k)) implies sum_amounts(
                coins@.take(k),
            ) <= u128::MAX by {
                if k > i {
                    assert(coins@.take(k)[i as int] == coins@[i as int]);
                }
            }
            return true;
        }
        assert(all_uscrt(coins@.take(i + 1))) by {
            assert forall|j: int| 0 <= j < i + 1 implies #[trigger] coins@.take(i + 1)[j].denom@
                == uscrt_denom() by {
                if j < i {
                    assert(coins@.take(i + 1)[j] == coins@.take(i as int)[j]);
                }
            }
        }
        match funds.checked_add(coins[i].amount) {
            Some(s) => {
                funds = s;
            },
            None => {
                assert(!uscrt_prefix_fits(coins@)) by {
                    assert(all_uscrt(coins@.take(i + 1)));
                }
                return false;
            },
        }
        i = i + 1;
    }
    assert forall|k: int|
        0 <= k <= coins@.len() && all_uscrt(#[trigger] coins@.take(k)) implies sum_amounts(
        coins@.take(k),
    ) <= u128::MAX by {}
    true
}

/// Total uscrt sent with a message. Any coin of another denomination is
/// refused; the amounts are summed front to back.
pub fn sum_uscrt(coins: &Vec<Coin>) -> (r: Result<u128, ContractError>)
    requires
        uscrt_prefix_fits(coins@),
    ensures
        all_uscrt(coins@) ==> r == Ok::<u128, ContractError>(sum_amounts(coins@) as u128),
        !all_uscrt(coins@) ==> r == Err::<u128, ContractError>(ContractError::UnsupportedToken),
{
    let denom = uscrt_string();
    let mut funds: u128 = 0;
    let mut i: usize = 0;
    while i < coins.len()
        invariant
            i <= coins@.len(),
            denom@ == uscrt_denom(),
            uscrt_prefix_fits(coins@),
            all_uscrt(coins@.take(i as int)),
            funds == sum_amounts(coins@.take(i as int)),
        decreases coins@.len() - i,
    {
        if coins[i].denom != denom {
            assert(!all_uscrt(coins@)) by {
                assert(coins@[i as int].denom@ != uscrt_denom());
            }
            return Err(ContractError::UnsupportedToken);
        }
        assert(coins@.take(i + 1).drop_last() =~= coins@.take(i as int));
        assert(all_uscrt(coins@.take(i + 1))) by {
            assert forall|j: int| 0 <= j < i + 1 implies #[trigger] coins@.take(i + 1)[j].denom@
                == uscrt_denom() by {
                if j < i {
                    assert(coins@.take(i + 1)[j] == coins@.take(i as int)[j]);
                }
            }
        }
        assert(sum_amounts(coins@.take(i + 1)) <= u128::MAX);
        funds = funds.checked_add(coins[i].amount).unwrap();
        i = i + 1;
    }
    assert(coins@.take(coins@.len() as int) =~= coins@);
    Ok(funds)
}

/// The items of `s` left after skipping `skip` and keeping at most `take`.
pub open spec fn window<T>(s: Seq<T>, skip: int, take: int) -> Seq<T> {
    let from = if skip < s.len() { skip } else { s.len() as int };
    let to = if from + take < s.len() { from + take } else { s.len() as int };
    s.subrange(from, to)
}

/// Page `start_page` of `s` in pages of `size` items.
pub open spec fn page_of<T>(s: Seq<T>, start_page: u32, size: u32) -> Seq<T> {
    window(s, start_page * size, size as int)
}

/// A window starts at `skip`, or at the end when `s` is shorter, and holds
/// the next `take` items, or as many as are left.
pub proof fn lemma_window<T>(s: Seq<T>, skip: int, take: int)
    requires
        skip >= 0,
        take >= 0,
    ensures
        ({
            let from = if skip < s.len() {
                skip
            } else {
                s.len() as int
            };
            &&& window(s, skip, take).len() == if take < s.len() - from {
                take
            } else {
                s.len() - from
            }
            &&& forall|k: int|
                0 <= k < window(s, skip, take).len() ==> #[trigger] window(s, skip, take)[k] == s[from
                    + k]
        }),
{
}

/// Page `start_page` in pages of `size` is the window from
/// `start_page * size` of `size` items.
pub proof fn lemma_page_of<T>(s: Seq<T>, start_page: u32, size: u32)
    ensures
        page_of(s, start_page, size) == window(s, start_page * size, size as int),
{
}

/// Page `start_page` of `list` in pages of `size` items, as stored lists
/// page their items.
pub fn page<T: Copy>(list: &Vec<T>, start_page: u32, size: u32) -> (r: Vec<T>)
    requires
        start_page * size <= usize::MAX,
    ensures
        r@ == page_of(list@, start_page, size),
{
    let skip = (start_page as usize) * (size as usize);
    let from = if skip < list.len() { skip } else { list.len() };
    let to = if size as usize <= list.len() - from { from + size as usize } else { list.len() };
    let mut r: Vec<T> = Vec::new();
    let mut i = from;
    while i < to
        invariant
            from <= i <= to <= list@.len(),
            r@ == list@.subrange(from as int, i as int),
        decreases to - i,
    {
        r.push(list[i]);
        assert(r@ =~= list@.subrange(from as int, i + 1));
        i = i + 1;
    }
    r
}

/// Whether each element of `v` is larger than the next.
pub fn is_strictly_decreasing(v: &Vec<u128>) -> (r: bool)
    ensures
        r == crate::tier::state::strictly_decreasing(v@),
{
    let mut i: usize = 1;
    while i < v.len()
        invariant
            1 <= i,
            forall|j: int| 0 <= j < i - 1 && j < v@.len() - 1 ==> #[trigger] v@[j] > v@[j + 1],
        decreases v@.len() - i,
    {
        if !(v[i - 1] > v[i]) {
            assert(!(v@[(i - 1) as int] > v@[(i - 1) + 1]));
            return false;
        }
        i = i + 1;
    }
    true
}

/// Byte-wise equality of two canonical addresses.
pub fn bytes_eq(a: &Vec<u8>, b: &Vec<u8>) -> (r: bool)
    ensures
        r == (a@ == b@),
{
    if a.len() != b.len() {
        return false;
    }
    let mut i: usize = 0;
    while i < a.len()
        invariant
            a@.len() == b@.len(),
            i <= a@.len(),
            forall|j: int| 0 <= j < i ==> a@[j] == b@[j],
        decreases a@.len() - i,
    {
        if a[i] != b[i] {
            return false;
        }
        i = i + 1;
    }
    assert(a@ =~= b@);
    true
}

} // verus!
