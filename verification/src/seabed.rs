use vstd::prelude::*;

verus! {

/// Food and medicine that may rest on the seabed at once, each kind counted apart.
pub const SEABED_ITEM_CAP: usize = 30;

/// Whether `is_landed` answers `true` for `t`.
pub open spec fn landed_by<T, F: Fn(&T) -> bool>(is_landed: F, t: T) -> bool {
    is_landed.ensures((&t,), true)
}

/// `is_landed` can be called on any item and always gives the same answer for it.
pub open spec fn is_landed_predicate<T, F: Fn(&T) -> bool>(is_landed: F) -> bool {
    &&& forall|t: T| #[trigger] is_landed.requires((&t,))
    &&& forall|t: T, b: bool|
        #[trigger] is_landed.ensures((&t,), b) ==> (b <==> landed_by(is_landed, t))
}

/// Number of items in `s` that `is_landed` reports as landed.
pub open spec fn landed_count<T, F: Fn(&T) -> bool>(s: Seq<T>, is_landed: F) -> nat
    decreases s.len(),
{
    if s.len() == 0 {
        0
    } else {
        landed_count(s.drop_last(), is_landed) + if landed_by(is_landed, s.last()) {
            1nat
        } else {
            0nat
        }
    }
}

/// `s` without its first `k` landed items (without every landed item if it has
/// fewer than `k`); the other items keep their order.
pub open spec fn drop_oldest_landed<T, F: Fn(&T) -> bool>(s: Seq<T>, is_landed: F, k: nat) -> Seq<T>
    decreases s.len(),
{
    if s.len() == 0 {
        s
    } else if k == 0 {
        s
    } else if landed_by(is_landed, s[0]) {
        drop_oldest_landed(s.skip(1), is_landed, (k - 1) as nat)
    } else {
        seq![s[0]].add(drop_oldest_landed(s.skip(1), is_landed, k))
    }
}

/// The items kept when at most `cap` landed items may stay: the oldest landed
/// items (those nearest the front) go first.
pub open spec fn spec_trim_landed<T, F: Fn(&T) -> bool>(s: Seq<T>, is_landed: F, cap: nat) -> Seq<T> {
    let n = landed_count(s, is_landed);
    if n > cap { drop_oldest_landed(s, is_landed, (n - cap) as nat) } else { s }
}

/// Removing the first item of a sequence loses one landed item when that item is landed.
proof fn lemma_landed_count_front<T, F: Fn(&T) -> bool>(s: Seq<T>, is_landed: F)
    requires
        s.len() > 0,
    ensures
        landed_count(s, is_landed) == landed_count(s.skip(1), is_landed) + if landed_by(
            is_landed,
            s[0],
        ) {
            1nat
        } else {
            0nat
        },
    decreases s.len(),
{
    if s.len() > 1 {
        lemma_landed_count_front(s.drop_last(), is_landed);
        assert(s.drop_last().skip(1) =~= s.skip(1).drop_last());
    } else {
        assert(s.skip(1) =~= Seq::<T>::empty());
        assert(s.drop_last() =~= Seq::<T>::empty());
    }
}

/// Once more than `cap` items have landed, removes the oldest landed items
/// (those nearest the front of `items`) until exactly `cap` remain; items that
/// have not landed are never removed, and all kept items keep their order.
pub fn trim_landed<T, F: Fn(&T) -> bool>(items: &mut Vec<T>, is_landed: F, cap: usize)
    requires
        is_landed_predicate(is_landed),
    ensures
        final(items)@ == spec_trim_landed(old(items)@, is_landed, cap as nat),
{
    let ghost orig = items@;
    let mut landed: usize = 0;
    let mut i: usize = 0;
    while i < items.len()
        invariant
            items@ == orig,
            is_landed_predicate(is_landed),
            i <= items.len(),
            landed == landed_count(orig.take(i as int), is_landed),
            landed <= i,
        decreases items.len() - i,
    {
        let l = is_landed(&items[i]);
        proof {
            assert(orig.take(i + 1).drop_last() =~= orig.take(i as int));
        }
        if l {
            landed = landed + 1;
        }
        i = i + 1;
    }
    proof {
        assert(orig.take(orig.len() as int) =~= orig);
    }
    if landed <= cap {
        return;
    }
    let mut to_remove: usize = landed - cap;
    let ghost target = spec_trim_landed(orig, is_landed, cap as nat);
    let mut i: usize = 0;
    let ghost mut j: int = 0;
    while i < items.len()
        invariant
            is_landed_predicate(is_landed),
            0 <= i <= j <= orig.len(),
            i <= items.len(),
            items@.take(i as int) + drop_oldest_landed(orig.skip(j), is_landed, to_remove as nat)
                == target,
            items@.skip(i as int) == orig.skip(j),
            items.len() - i == orig.len() - j,
        decreases items.len() - i,
    {
        let ghost rest = orig.skip(j);
        proof {
            assert(rest.len() > 0);
            assert(rest[0] == items@[i as int]);
            assert(rest.skip(1) =~= orig.skip(j + 1));
        }
        if to_remove > 0 && is_landed(&items[i]) {
            let ghost before = items@;
            items.remove(i);
            to_remove = to_remove - 1;
            proof {
                assert(items@.take(i as int) =~= before.take(i as int));
                assert(items@.skip(i as int) =~= before.skip(i + 1));
                assert(before.skip(i as int).skip(1) =~= before.skip(i + 1));
                j = j + 1;
            }
        } else {
            proof {
                assert(items@.take(i + 1) =~= items@.take(i as int).push(items@[i as int]));
                assert(items@.skip(i as int).skip(1) =~= items@.skip(i + 1));
                if to_remove == 0 {
                    assert(drop_oldest_landed(rest, is_landed, 0) == rest);
                    assert(drop_oldest_landed(rest.skip(1), is_landed, 0) == rest.skip(1));
                    assert(rest =~= seq![rest[0]].add(rest.skip(1)));
                }
                assert(seq![rest[0]].add(drop_oldest_landed(rest.skip(1), is_landed, to_remove as nat))
                    == drop_oldest_landed(rest, is_landed, to_remove as nat));
                assert(items@.take(i as int).push(items@[i as int]) + drop_oldest_landed(
                    rest.skip(1),
                    is_landed,
                    to_remove as nat,
                ) =~= items@.take(i as int) + seq![rest[0]].add(
                    drop_oldest_landed(rest.skip(1), is_landed, to_remove as nat),
                ));
                j = j + 1;
            }
            i = i + 1;
        }
    }
    proof {
        assert(orig.skip(j) =~= Seq::<T>::empty());
        assert(items@.take(i as int) =~= items@);
        assert(items@ + Seq::<T>::empty() =~= items@);
    }
}


/// The items of `s` that have not landed, in order.
pub open spec fn unlanded<T, F: Fn(&T) -> bool>(s: Seq<T>, is_landed: F) -> Seq<T>
    decreases s.len(),
{
    if s.len() == 0 {
        s
    } else {
        (if landed_by(is_landed, s[0]) { Seq::empty() } else { seq![s[0]] }).add(
            unlanded(s.skip(1), is_landed),
        )
    }
}

proof fn lemma_drop_oldest_landed<T, F: Fn(&T) -> bool>(s: Seq<T>, is_landed: F, k: nat)
    ensures
        landed_count(drop_oldest_landed(s, is_landed, k), is_landed) == if landed_count(
            s,
            is_landed,
        ) >= k {
            (landed_count(s, is_landed) - k) as nat
        } else {
            0nat
        },
        unlanded(drop_oldest_landed(s, is_landed, k), is_landed) == unlanded(s, is_landed),
    decreases s.len(),
{
    if s.len() == 0 {
    } else if k == 0 {
    } else {
        lemma_landed_count_front(s, is_landed);
        if landed_by(is_landed, s[0]) {
            lemma_drop_oldest_landed(s.skip(1), is_landed, (k - 1) as nat);
        } else {
            lemma_drop_oldest_landed(s.skip(1), is_landed, k);
            let rest = drop_oldest_landed(s.skip(1), is_landed, k);
            let r = seq![s[0]].add(rest);
            assert(r.len() > 0);
            assert(r[0] == s[0]);
            assert(r.skip(1) =~= rest);
            lemma_landed_count_front(r, is_landed);
        }
    }
}

/// After trimming, exactly `cap` landed items remain if more had landed (else
/// all of them), and every item that has not landed is still there, in order.
pub proof fn law_trim_landed_keeps_cap_and_unlanded<T, F: Fn(&T) -> bool>(s: Seq<T>, is_landed: F, cap: nat)
    ensures
        landed_count(spec_trim_landed(s, is_landed, cap), is_landed) == if landed_count(
            s,
            is_landed,
        ) > cap {
            cap
        } else {
            landed_count(s, is_landed)
        },
        unlanded(spec_trim_landed(s, is_landed, cap), is_landed) == unlanded(s, is_landed),
{
    let n = landed_count(s, is_landed);
    if n > cap {
        lemma_drop_oldest_landed(s, is_landed, (n - cap) as nat);
    }
}


/// The items of `s` whose flag in `marked` is not set, in order.
pub open spec fn spec_unmarked<T>(s: Seq<T>, marked: Seq<bool>) -> Seq<T>
    decreases s.len(),
{
    if s.len() == 0 {
        s
    } else {
        let before = spec_unmarked(s.drop_last(), marked);
        if marked[s.len() - 1] { before } else { before.push(s.last()) }
    }
}

/// Removes the items whose flag in `marked` is set (eaten or expired), keeping
/// the others in order; `marked[i]` belongs to `items[i]`.
pub fn remove_marked<T>(items: &mut Vec<T>, marked: &Vec<bool>)
    requires
        marked.len() == old(items).len(),
    ensures
        final(items)@ == spec_unmarked(old(items)@, marked@),
{
    let ghost orig = items@;
    let mut i: usize = 0;
    let mut k: usize = 0;
    while i < marked.len()
        invariant
            marked.len() == orig.len(),
            k <= i <= marked.len(),
            items.len() == k + (orig.len() - i),
            items@.take(k as int) == spec_unmarked(orig.take(i as int), marked@),
            items@.skip(k as int) == orig.skip(i as int),
        decreases marked.len() - i,
    {
        proof {
            assert(orig.take(i + 1).drop_last() =~= orig.take(i as int));
            assert(items@[k as int] == orig[i as int]) by {
                assert(items@.skip(k as int)[0] == orig.skip(i as int)[0]);
            }
        }
        if marked[i] {
            let ghost before = items@;
            items.remove(k);
            proof {
                assert(items@.take(k as int) =~= before.take(k as int));
                assert(items@.skip(k as int) =~= before.skip(k as int).skip(1));
                assert(orig.skip(i as int).skip(1) =~= orig.skip(i + 1));
            }
        } else {
            proof {
                assert(items@.take(k + 1) =~= items@.take(k as int).push(orig[i as int]));
                assert(items@.skip(k + 1) =~= items@.skip(k as int).skip(1));
                assert(orig.skip(i as int).skip(1) =~= orig.skip(i + 1));
            }
            k = k + 1;
        }
        i = i + 1;
    }
    proof {
        assert(orig.take(orig.len() as int) =~= orig);
        assert(items@.take(k as int) =~= items@);
    }
}


/// The oldest landed item goes first: when the first item has landed and more
/// than `cap` items have landed, trimming gives the same as trimming the rest
/// without it.
pub proof fn law_trim_removes_the_oldest_landed_first<T, F: Fn(&T) -> bool>(s: Seq<T>, is_landed: F, cap: nat)
    requires
        s.len() > 0,
        landed_by(is_landed, s[0]),
        landed_count(s, is_landed) > cap,
    ensures
        spec_trim_landed(s, is_landed, cap) == spec_trim_landed(s.skip(1), is_landed, cap),
{
    lemma_landed_count_front(s, is_landed);
    let n = landed_count(s, is_landed);
    let k = (n - cap) as nat;
    assert(drop_oldest_landed(s, is_landed, k) == drop_oldest_landed(s.skip(1), is_landed, (k - 1) as nat));
    if landed_count(s.skip(1), is_landed) <= cap {
        assert(k - 1 == 0);
        assert(drop_oldest_landed(s.skip(1), is_landed, 0) == s.skip(1));
    }
}

/// Number of unset flags among the first `n`.
pub open spec fn unmarked_count(marked: Seq<bool>, n: nat) -> nat
    decreases n,
{
    if n == 0 { 0 } else { unmarked_count(marked, (n - 1) as nat) + if marked[n - 1] { 0nat } else { 1nat } }
}

/// Removing marked items keeps one item per unset flag, keeps every item when
/// nothing is marked and removes every item when everything is marked.
pub proof fn law_remove_marked_keeps_the_unmarked<T>(s: Seq<T>, marked: Seq<bool>)
    requires
        marked.len() == s.len(),
    ensures
        spec_unmarked(s, marked).len() == unmarked_count(marked, s.len()),
        (forall|i: int| 0 <= i < s.len() ==> !#[trigger] marked[i]) ==> spec_unmarked(s, marked) == s,
        (forall|i: int| 0 <= i < s.len() ==> #[trigger] marked[i]) ==> spec_unmarked(s, marked).len() == 0,
    decreases s.len(),
{
    if s.len() > 0 {
        let m0 = marked.take(s.len() - 1);
        law_remove_marked_keeps_the_unmarked(s.drop_last(), m0);
        lemma_unmarked_prefix(s.drop_last(), marked, m0);
        lemma_unmarked_count_prefix(marked, m0, (s.len() - 1) as nat);
        if forall|i: int| 0 <= i < s.len() ==> !#[trigger] marked[i] {
            assert forall|i: int| 0 <= i < s.drop_last().len() implies !#[trigger] m0[i] by {
                assert(m0[i] == marked[i]);
            }
            assert(!marked[s.len() - 1]);
            assert(s.drop_last().push(s.last()) =~= s);
        }
        if forall|i: int| 0 <= i < s.len() ==> #[trigger] marked[i] {
            assert forall|i: int| 0 <= i < s.drop_last().len() implies #[trigger] m0[i] by {
                assert(m0[i] == marked[i]);
            }
            assert(marked[s.len() - 1]);
        }
    }
}

proof fn lemma_unmarked_prefix<T>(s: Seq<T>, marked: Seq<bool>, m0: Seq<bool>)
    requires
        m0.len() >= s.len(),
        marked.len() >= s.len(),
        forall|i: int| 0 <= i < s.len() ==> m0[i] == marked[i],
    ensures
        spec_unmarked(s, marked) == spec_unmarked(s, m0),
    decreases s.len(),
{
    if s.len() > 0 {
        lemma_unmarked_prefix(s.drop_last(), marked, m0);
    }
}

proof fn lemma_unmarked_count_prefix(marked: Seq<bool>, m0: Seq<bool>, n: nat)
    requires
        m0.len() >= n,
        marked.len() >= n,
        forall|i: int| 0 <= i < n ==> m0[i] == marked[i],
    ensures
        unmarked_count(marked, n) == unmarked_count(m0, n),
    decreases n,
{
    if n > 0 {
        lemma_unmarked_count_prefix(marked, m0, (n - 1) as nat);
    }
}

} // verus!
