//! Removal of items from a list one position at a time, as the contracts
//! do on stored queues, and what such removals leave and take out.
use vstd::prelude::*;

verus! {

broadcast use vstd::seq_lib::group_seq_properties;

/// Positions at which to remove, one after the other, the items at the
/// increasing indices `idx`: each removal shifts the later items down by one.
pub open spec fn shifted_positions(idx: Seq<int>) -> Seq<int> {
    Seq::new(idx.len(), |k: int| idx[k] - k)
}

/// Each index of `idx` is smaller than the next.
pub open spec fn strictly_increasing(idx: Seq<int>) -> bool {
    forall|i: int, j: int| 0 <= i < j < idx.len() ==> idx[i] < idx[j]
}

/// Every position of `pos` is in range when its turn to be removed comes.
pub open spec fn removable<T>(s: Seq<T>, pos: Seq<int>) -> bool
    decreases pos.len(),
{
    if pos.len() == 0 {
        true
    } else {
        0 <= pos[0] < s.len() && removable(s.remove(pos[0]), pos.drop_first())
    }
}

/// What is left of `s` after removing at each position of `pos` in turn.
pub open spec fn removed<T>(s: Seq<T>, pos: Seq<int>) -> Seq<T>
    decreases pos.len(),
{
    if pos.len() == 0 {
        s
    } else {
        removed(s.remove(pos[0]), pos.drop_first())
    }
}

/// The items taken out of `s` by removing at each position of `pos` in turn.
pub open spec fn removed_items<T>(s: Seq<T>, pos: Seq<int>) -> Seq<T>
    decreases pos.len(),
{
    if pos.len() == 0 {
        Seq::empty()
    } else {
        seq![s[pos[0]]] + removed_items(s.remove(pos[0]), pos.drop_first())
    }
}

/// The positions as integers.
pub open spec fn as_ints(s: Seq<u32>) -> Seq<int> {
    s.map_values(|p: u32| p as int)
}

/// Removing at shifted positions takes out exactly the items at the given
/// increasing indices, in order, and leaves the others.
pub proof fn lemma_remove_at_indices<T>(s: Seq<T>, idx: Seq<int>)
    requires
        strictly_increasing(idx),
        forall|k: int| 0 <= k < idx.len() ==> 0 <= #[trigger] idx[k] < s.len(),
    ensures
        removable(s, shifted_positions(idx)),
        removed_items(s, shifted_positions(idx)) == Seq::new(idx.len(), |k: int| s[idx[k]]),
        removed(s, shifted_positions(idx)).len() == s.len() - idx.len(),
    decreases idx.len(),
{
    let pos = shifted_positions(idx);
    if idx.len() > 0 {
        let first = idx[0];
        let rest = Seq::new((idx.len() - 1) as nat, |k: int| idx[k + 1] - 1);
        let s2 = s.remove(first);
        assert forall|i: int, j: int| 0 <= i < j < rest.len() implies rest[i] < rest[j] by {
            assert(idx[i + 1] < idx[j + 1]);
        }
        assert forall|k: int| 0 <= k < rest.len() implies 0 <= #[trigger] rest[k] < s2.len() by {
            assert(idx[0] < idx[k + 1]);
            assert(idx[k + 1] < s.len());
        }
        lemma_remove_at_indices(s2, rest);
        assert(pos.drop_first() =~= shifted_positions(rest));
        assert(pos[0] == first);
        assert(removed_items(s2, shifted_positions(rest)) =~= Seq::new(
            rest.len(),
            |k: int| s2[rest[k]],
        ));
        assert forall|k: int| 0 <= k < rest.len() implies s2[rest[k]] == s[idx[k + 1]] by {
            assert(idx[0] < idx[k + 1]);
        }
        assert(removed_items(s, pos) =~= Seq::new(idx.len(), |k: int| s[idx[k]]));
    } else {
        assert(removed_items(s, pos) =~= Seq::new(idx.len(), |k: int| s[idx[k]]));
    }
}

/// Removals only move items: what is left and what was taken out together
/// hold each item as often as before.
pub proof fn lemma_removal_multiset<T>(s: Seq<T>, pos: Seq<int>)
    requires
        removable(s, pos),
    ensures
        removed(s, pos).to_multiset().add(removed_items(s, pos).to_multiset()) =~= s.to_multiset(),
    decreases pos.len(),
{
    broadcast use vstd::multiset::group_multiset_axioms;

    if pos.len() > 0 {
        let x = s[pos[0]];
        let s2 = s.remove(pos[0]);
        lemma_removal_multiset(s2, pos.drop_first());
        let left = removed(s2, pos.drop_first());
        let taken = removed_items(s2, pos.drop_first());
        vstd::seq_lib::lemma_multiset_commutative(seq![x], taken);
        vstd::seq_lib::to_multiset_remove(s, pos[0]);
        vstd::seq_lib::to_multiset_contains(s, x);
        assert(seq![x].to_multiset() =~= vstd::multiset::Multiset::empty().insert(x)) by {
            vstd::seq_lib::to_multiset_build(Seq::<T>::empty(), x);
            assert(Seq::<T>::empty().push(x) =~= seq![x]);
        }
        assert(removed(s, pos) == left);
        assert(removed_items(s, pos) == seq![x] + taken);
        assert(left.to_multiset().add(taken.to_multiset()) =~= s2.to_multiset());
        assert(s2.to_multiset() =~= s.to_multiset().remove(x));
        assert(s.to_multiset().count(x) > 0);
        let lm = left.to_multiset();
        let tm = taken.to_multiset();
        let xm = vstd::multiset::Multiset::<T>::empty().insert(x);
        assert((seq![x] + taken).to_multiset() =~= xm.add(tm));
        assert forall|v: T| #[trigger] lm.add(xm.add(tm)).count(v) == s.to_multiset().count(v) by {
            assert(lm.count(v) + tm.count(v) == s2.to_multiset().count(v));
            if v == x {
                assert(s2.to_multiset().count(v) == s.to_multiset().count(v) - 1);
            } else {
                assert(s2.to_multiset().count(v) == s.to_multiset().count(v));
            }
        }
        assert(lm.add(xm.add(tm)) =~= s.to_multiset());
    }
}

/// The indices, in order, of the items of `w` that `sel` selects.
pub open spec fn selected_indices<T>(w: Seq<T>, sel: spec_fn(T) -> bool) -> Seq<int>
    decreases w.len(),
{
    if w.len() == 0 {
        Seq::empty()
    } else {
        let p = selected_indices(w.drop_last(), sel);
        if sel(w.last()) {
            p.push(w.len() - 1)
        } else {
            p
        }
    }
}

/// The items of `w` that `sel` does not select, in order.
pub open spec fn unselected<T>(w: Seq<T>, sel: spec_fn(T) -> bool) -> Seq<T>
    decreases w.len(),
{
    if w.len() == 0 {
        Seq::empty()
    } else {
        let p = unselected(w.drop_last(), sel);
        if sel(w.last()) {
            p
        } else {
            p.push(w.last())
        }
    }
}

/// Selected indices are increasing, in range, and pick selected items;
/// they and the unselected items account for the whole of `w`.
pub proof fn lemma_selected_indices<T>(w: Seq<T>, sel: spec_fn(T) -> bool)
    ensures
        strictly_increasing(selected_indices(w, sel)),
        forall|k: int|
            0 <= k < selected_indices(w, sel).len() ==> 0 <= #[trigger] selected_indices(w, sel)[k]
                < w.len() && sel(w[selected_indices(w, sel)[k]]),
        selected_indices(w, sel).len() + unselected(w, sel).len() == w.len(),
    decreases w.len(),
{
    if w.len() > 0 {
        lemma_selected_indices(w.drop_last(), sel);
    }
}

/// Removing the selected items of a prefix `w`, at their shifted positions,
/// leaves the unselected items of `w` followed by the rest, untouched.
pub proof fn lemma_remove_selected<T>(w: Seq<T>, rest: Seq<T>, sel: spec_fn(T) -> bool)
    ensures
        removable(w + rest, shifted_positions(selected_indices(w, sel))),
        removed(w + rest, shifted_positions(selected_indices(w, sel))) == unselected(w, sel) + rest,
    decreases w.len(),
{
    if w.len() > 0 {
        let w1 = w.drop_last();
        let x = w.last();
        let rest1 = seq![x] + rest;
        assert(w + rest =~= w1 + rest1);
        lemma_remove_selected(w1, rest1, sel);
        lemma_selected_indices(w1, sel);
        let idx1 = selected_indices(w1, sel);
        lemma_selected_indices(w, sel);
        if sel(x) {
            let idx = idx1.push(w.len() - 1);
            let p = w.len() - 1 - idx1.len();
            assert(selected_indices(w, sel) == idx);
            assert(unselected(w, sel) == unselected(w1, sel));
            assert(p == unselected(w1, sel).len());
            assert(shifted_positions(idx) =~= shifted_positions(idx1) + seq![p]);
            let mid = removed(w1 + rest1, shifted_positions(idx1));
            assert(mid == unselected(w1, sel) + rest1);
            lemma_removed_append(w1 + rest1, shifted_positions(idx1), seq![p]);
            assert(seq![p].drop_first() =~= Seq::<int>::empty());
            assert(removable(mid.remove(p), Seq::<int>::empty()));
            assert(removable(mid, seq![p]));
            assert(removed(mid, seq![p]) == removed(mid.remove(p), Seq::<int>::empty()));
            assert(mid.remove(p) =~= unselected(w1, sel) + rest);
        } else {
            assert(selected_indices(w, sel) == idx1);
            assert(unselected(w, sel) == unselected(w1, sel).push(x));
            assert(unselected(w1, sel) + rest1 =~= unselected(w, sel) + rest);
        }
    }
}

/// Removing at the positions of `a` and then of `b` is removing at `a + b`.
pub proof fn lemma_removed_append<T>(s: Seq<T>, a: Seq<int>, b: Seq<int>)
    ensures
        removable(s, a + b) == (removable(s, a) && removable(removed(s, a), b)),
        removable(s, a) ==> removed(s, a + b) == removed(removed(s, a), b),
    decreases a.len(),
{
    if a.len() > 0 {
        assert((a + b).drop_first() =~= a.drop_first() + b);
        assert((a + b)[0] == a[0]);
        lemma_removed_append(s.remove(a[0]), a.drop_first(), b);
    } else {
        assert(a + b =~= b);
    }
}

/// The indices below `n` that `pick` picks, in increasing order.
pub open spec fn picked_indices(n: nat, pick: spec_fn(int) -> bool) -> Seq<int>
    decreases n,
{
    if n == 0 {
        Seq::empty()
    } else {
        let p = picked_indices((n - 1) as nat, pick);
        if pick(n - 1) {
            p.push(n - 1)
        } else {
            p
        }
    }
}

/// Picked indices are increasing, below `n`, picked, and include every
/// picked index below `n`.
pub proof fn lemma_picked_indices(n: nat, pick: spec_fn(int) -> bool)
    ensures
        strictly_increasing(picked_indices(n, pick)),
        forall|k: int|
            0 <= k < picked_indices(n, pick).len() ==> 0 <= #[trigger] picked_indices(n, pick)[k] < n
                && pick(picked_indices(n, pick)[k]),
        forall|j: int| 0 <= j < n && pick(j) ==> #[trigger] picked_indices(n, pick).contains(j),
    decreases n,
{
    if n > 0 {
        lemma_picked_indices((n - 1) as nat, pick);
        let p = picked_indices((n - 1) as nat, pick);
        assert forall|j: int| 0 <= j < n && pick(j) implies #[trigger] picked_indices(
            n,
            pick,
        ).contains(j) by {
            if j < n - 1 {
                assert(p.contains(j));
                let k = choose|k: int| 0 <= k < p.len() && p[k] == j;
                assert(picked_indices(n, pick)[k] == j);
            } else {
                assert(picked_indices(n, pick)[picked_indices(n, pick).len() - 1] == j);
            }
        }
    }
}

/// Picking indices by what their items are selects those items.
pub proof fn lemma_picked_is_selected<T>(s: Seq<T>, sel: spec_fn(T) -> bool, pick: spec_fn(int) -> bool)
    requires
        forall|j: int| 0 <= j < s.len() ==> pick(j) == sel(#[trigger] s[j]),
    ensures
        picked_indices(s.len(), pick) == selected_indices(s, sel),
    decreases s.len(),
{
    if s.len() > 0 {
        assert forall|j: int| 0 <= j < s.drop_last().len() implies pick(j) == sel(
            #[trigger] s.drop_last()[j],
        ) by {
            assert(s.drop_last()[j] == s[j]);
        }
        lemma_picked_is_selected(s.drop_last(), sel, pick);
        assert(pick(s.len() - 1) == sel(s[s.len() - 1]));
    }
}

/// Removes from `list`, one after the other, the items at `positions`, and
/// returns them in the order they were removed.
pub fn remove_positions<T>(list: &mut Vec<T>, positions: &Vec<u32>) -> (taken: Vec<T>)
    requires
        removable(old(list)@, as_ints(positions@)),
    ensures
        final(list)@ == removed(old(list)@, as_ints(positions@)),
        taken@ == removed_items(old(list)@, as_ints(positions@)),
{
    let ghost orig = list@;
    let ghost pos = as_ints(positions@);
    let mut taken: Vec<T> = Vec::new();
    let mut i: usize = 0;
    while i < positions.len()
        invariant
            pos == as_ints(positions@),
            i <= positions@.len(),
            removable(list@, pos.skip(i as int)),
            removed(orig, pos) == removed(list@, pos.skip(i as int)),
            removed_items(orig, pos) == taken@ + removed_items(list@, pos.skip(i as int)),
        decreases positions@.len() - i,
    {
        let ghost before = list@;
        let ghost tail = pos.skip(i as int);
        assert(tail[0] == positions@[i as int] as int);
        assert(tail.drop_first() =~= pos.skip(i + 1));
        let item = list.remove(positions[i] as usize);
        assert(list@ == before.remove(tail[0]));
        taken.push(item);
        assert(removed_items(before, tail) == seq![item] + removed_items(list@, tail.drop_first()));
        assert(taken@ + removed_items(list@, pos.skip(i + 1)) =~= (taken@.drop_last() + seq![item])
            + removed_items(list@, pos.skip(i + 1)));
        i = i + 1;
    }
    assert(pos.skip(i as int) =~= Seq::<int>::empty());
    assert(taken@ + Seq::<T>::empty() =~= taken@);
    taken
}

} // verus!
