use vstd::prelude::*;
use crate::species::Species;

verus! {

/// The distinct species of `s`, in order of first appearance.
pub open spec fn spec_first_appearances(s: Seq<Species>) -> Seq<Species>
    decreases s.len(),
{
    if s.len() == 0 {
        Seq::empty()
    } else {
        let before = spec_first_appearances(s.drop_last());
        if before.contains(s.last()) { before } else { before.push(s.last()) }
    }
}

/// Species of each entry of `ready`.
pub open spec fn spec_species_of(ready: Seq<(usize, Species)>) -> Seq<Species> {
    ready.map_values(|e: (usize, Species)| e.1)
}

/// Fish indices of the entries of `ready` of species `sp`, in order.
pub open spec fn spec_indices_of(ready: Seq<(usize, Species)>, sp: Species) -> Seq<usize>
    decreases ready.len(),
{
    if ready.len() == 0 {
        Seq::empty()
    } else {
        let before = spec_indices_of(ready.drop_last(), sp);
        if ready.last().1 == sp { before.push(ready.last().0) } else { before }
    }
}

/// Consecutive pairs of `s`: (s[0], s[1]), (s[2], s[3]), ...; an odd last item is left out.
pub open spec fn spec_chunk_pairs(s: Seq<usize>) -> Seq<(usize, usize)> {
    Seq::new(s.len() / 2, |k: int| (s[2 * k], s[2 * k + 1]))
}

/// Pairs formed for the species `sps`, one species after the other.
pub open spec fn spec_pairs_for(ready: Seq<(usize, Species)>, sps: Seq<Species>) -> Seq<(usize, usize)>
    decreases sps.len(),
{
    if sps.len() == 0 {
        Seq::empty()
    } else {
        spec_pairs_for(ready, sps.drop_last()) + spec_chunk_pairs(spec_indices_of(ready, sps.last()))
    }
}

/// Breeding pairs made at once from the fish ready to breed: species by species,
/// in order of first appearance in `ready`, that species' fish are paired in
/// their order in `ready`, two by two; an odd fish out stays unpaired.
pub open spec fn spec_pair_ready_fish(ready: Seq<(usize, Species)>) -> Seq<(usize, usize)> {
    spec_pairs_for(ready, spec_first_appearances(spec_species_of(ready)))
}

fn contains_species(v: &Vec<Species>, sp: Species) -> (r: bool)
    ensures
        r == v@.contains(sp),
{
    let mut i: usize = 0;
    while i < v.len()
        invariant
            i <= v.len(),
            forall|j: int| 0 <= j < i ==> v@[j] != sp,
        decreases v.len() - i,
    {
        if v[i] == sp {
            assert(v@[i as int] == sp);
            return true;
        }
        i = i + 1;
    }
    false
}

fn indices_of(ready: &Vec<(usize, Species)>, sp: Species) -> (r: Vec<usize>)
    ensures
        r@ == spec_indices_of(ready@, sp),
{
    let mut r: Vec<usize> = Vec::new();
    let mut i: usize = 0;
    while i < ready.len()
        invariant
            i <= ready.len(),
            r@ == spec_indices_of(ready@.take(i as int), sp),
        decreases ready.len() - i,
    {
        proof {
            assert(ready@.take(i + 1).drop_last() =~= ready@.take(i as int));
        }
        let (idx, s) = ready[i];
        if s == sp {
            r.push(idx);
        }
        i = i + 1;
    }
    assert(ready@.take(ready.len() as int) =~= ready@);
    r
}

fn chunk_pairs(s: &Vec<usize>) -> (r: Vec<(usize, usize)>)
    ensures
        r@ == spec_chunk_pairs(s@),
{
    let mut r: Vec<(usize, usize)> = Vec::new();
    let mut k: usize = 0;
    while k < s.len() / 2
        invariant
            k <= s.len() / 2,
            r@ =~= spec_chunk_pairs(s@).take(k as int),
        decreases s.len() / 2 - k,
    {
        r.push((s[2 * k], s[2 * k + 1]));
        k = k + 1;
    }
    r
}

/// Pairs up the fish ready to breed for an immediate mating: `ready` lists each
/// such fish's index with its species (see `spec_pair_ready_fish`).
pub fn pair_ready_fish(ready: &Vec<(usize, Species)>) -> (r: Vec<(usize, usize)>)
    ensures
        r@ == spec_pair_ready_fish(ready@),
{
    let mut done: Vec<Species> = Vec::new();
    let mut pairs: Vec<(usize, usize)> = Vec::new();
    let ghost sps = spec_species_of(ready@);
    let mut k: usize = 0;
    while k < ready.len()
        invariant
            k <= ready.len(),
            sps == spec_species_of(ready@),
            done@ == spec_first_appearances(sps.take(k as int)),
            pairs@ == spec_pairs_for(ready@, done@),
        decreases ready.len() - k,
    {
        let sp = ready[k].1;
        proof {
            assert(sps.take(k + 1).drop_last() =~= sps.take(k as int));
            assert(sps.take(k + 1).last() == sp);
        }
        if !contains_species(&done, sp) {
            let ghost before = done@;
            done.push(sp);
            let idx = indices_of(ready, sp);
            let chunk = chunk_pairs(&idx);
            let mut c: usize = 0;
            let ghost base = pairs@;
            while c < chunk.len()
                invariant
                    c <= chunk.len(),
                    pairs@ =~= base + chunk@.take(c as int),
                decreases chunk.len() - c,
            {
                pairs.push(chunk[c]);
                c = c + 1;
            }
            proof {
                assert(chunk@.take(chunk.len() as int) =~= chunk@);
                assert(done@.drop_last() =~= before);
            }
        }
        k = k + 1;
    }
    assert(sps.take(ready.len() as int) =~= sps);
    pairs
}


/// Positions in `ready` of the entries of species `sp`, in order.
pub open spec fn spec_positions_of(ready: Seq<(usize, Species)>, sp: Species) -> Seq<int>
    decreases ready.len(),
{
    if ready.len() == 0 {
        Seq::empty()
    } else {
        let before = spec_positions_of(ready.drop_last(), sp);
        if ready.last().1 == sp { before.push(ready.len() - 1) } else { before }
    }
}

/// Consecutive pairs of positions, as `spec_chunk_pairs` forms them from fish indices.
pub open spec fn spec_chunk_positions(s: Seq<int>) -> Seq<(int, int)> {
    Seq::new(s.len() / 2, |k: int| (s[2 * k], s[2 * k + 1]))
}

/// Positions in `ready` of the two fish of each pair formed for the species `sps`.
pub open spec fn spec_position_pairs_for(ready: Seq<(usize, Species)>, sps: Seq<Species>) -> Seq<(int, int)>
    decreases sps.len(),
{
    if sps.len() == 0 {
        Seq::empty()
    } else {
        spec_position_pairs_for(ready, sps.drop_last()) + spec_chunk_positions(
            spec_positions_of(ready, sps.last()),
        )
    }
}

proof fn lemma_positions_of(ready: Seq<(usize, Species)>, sp: Species)
    ensures
        spec_positions_of(ready, sp).len() == spec_indices_of(ready, sp).len(),
        forall|t: int|
            0 <= t < spec_positions_of(ready, sp).len() ==> {
                let p = #[trigger] spec_positions_of(ready, sp)[t];
                &&& 0 <= p < ready.len()
                &&& ready[p].0 == spec_indices_of(ready, sp)[t]
                &&& ready[p].1 == sp
            },
        forall|t1: int, t2: int|
            0 <= t1 < t2 < spec_positions_of(ready, sp).len() ==> #[trigger] spec_positions_of(
                ready,
                sp,
            )[t1] < #[trigger] spec_positions_of(ready, sp)[t2],
    decreases ready.len(),
{
    if ready.len() > 0 {
        let r0 = ready.drop_last();
        lemma_positions_of(r0, sp);
        let before = spec_positions_of(r0, sp);
        let pos = spec_positions_of(ready, sp);
        let idx = spec_indices_of(ready, sp);
        assert forall|t: int| 0 <= t < pos.len() implies {
            let p = #[trigger] pos[t];
            &&& 0 <= p < ready.len()
            &&& ready[p].0 == idx[t]
            &&& ready[p].1 == sp
        } by {
            if t < before.len() {
                assert(pos[t] == before[t]);
                assert(ready[before[t]] == r0[before[t]]);
            }
        }
    }
}

proof fn lemma_position_pairs_for(ready: Seq<(usize, Species)>, sps: Seq<Species>)
    ensures
        spec_position_pairs_for(ready, sps).len() == spec_pairs_for(ready, sps).len(),
        forall|x: int|
            0 <= x < spec_position_pairs_for(ready, sps).len() ==> {
                let pp = #[trigger] spec_position_pairs_for(ready, sps)[x];
                &&& 0 <= pp.0 < pp.1 < ready.len()
                &&& ready[pp.0].0 == spec_pairs_for(ready, sps)[x].0
                &&& ready[pp.1].0 == spec_pairs_for(ready, sps)[x].1
                &&& ready[pp.0].1 == ready[pp.1].1
                &&& sps.contains(ready[pp.0].1)
            },
    decreases sps.len(),
{
    if sps.len() > 0 {
        let s0 = sps.drop_last();
        let sp = sps.last();
        lemma_position_pairs_for(ready, s0);
        lemma_positions_of(ready, sp);
        let a = spec_position_pairs_for(ready, s0);
        let ia = spec_pairs_for(ready, s0);
        let cp = spec_chunk_positions(spec_positions_of(ready, sp));
        let ci = spec_chunk_pairs(spec_indices_of(ready, sp));
        let pos = spec_positions_of(ready, sp);
        let ppf = spec_position_pairs_for(ready, sps);
        let pf = spec_pairs_for(ready, sps);
        assert(ppf == a + cp);
        assert(pf == ia + ci);
        assert forall|x: int| 0 <= x < ppf.len() implies {
            let pp = #[trigger] ppf[x];
            &&& 0 <= pp.0 < pp.1 < ready.len()
            &&& ready[pp.0].0 == pf[x].0
            &&& ready[pp.1].0 == pf[x].1
            &&& ready[pp.0].1 == ready[pp.1].1
            &&& sps.contains(ready[pp.0].1)
        } by {
            if x < a.len() {
                assert(ppf[x] == a[x]);
                assert(pf[x] == ia[x]);
                let w = choose|w: int| 0 <= w < s0.len() && s0[w] == ready[a[x].0].1;
                assert(sps[w] == s0[w]);
            } else {
                let k = x - a.len();
                assert(ppf[x] == cp[k]);
                assert(pf[x] == ci[k]);
                assert(cp[k] == (pos[2 * k], pos[2 * k + 1]));
                assert(pos[2 * k] < pos[2 * k + 1]);
                assert(sps[sps.len() - 1] == sp);
            }
        }
    }
}

proof fn lemma_first_appearances_distinct(s: Seq<Species>)
    ensures
        spec_first_appearances(s).no_duplicates(),
    decreases s.len(),
{
    if s.len() > 0 {
        lemma_first_appearances_distinct(s.drop_last());
    }
}

proof fn lemma_position_pairs_disjoint(ready: Seq<(usize, Species)>, sps: Seq<Species>)
    requires
        sps.no_duplicates(),
    ensures
        forall|x: int, y: int|
            0 <= x < y < spec_position_pairs_for(ready, sps).len() ==> {
                let p = #[trigger] spec_position_pairs_for(ready, sps)[x];
                let q = #[trigger] spec_position_pairs_for(ready, sps)[y];
                p.0 != q.0 && p.0 != q.1 && p.1 != q.0 && p.1 != q.1
            },
    decreases sps.len(),
{
    lemma_position_pairs_for(ready, sps);
    if sps.len() > 0 {
        let s0 = sps.drop_last();
        let sp = sps.last();
        assert(s0.no_duplicates());
        lemma_position_pairs_disjoint(ready, s0);
        lemma_position_pairs_for(ready, s0);
        lemma_positions_of(ready, sp);
        let a = spec_position_pairs_for(ready, s0);
        let pos = spec_positions_of(ready, sp);
        let cp = spec_chunk_positions(pos);
        let ppf = spec_position_pairs_for(ready, sps);
        assert(ppf == a + cp);
        assert(!s0.contains(sp));
        assert forall|x: int, y: int| 0 <= x < y < ppf.len() implies {
            let p = #[trigger] ppf[x];
            let q = #[trigger] ppf[y];
            p.0 != q.0 && p.0 != q.1 && p.1 != q.0 && p.1 != q.1
        } by {
            if y < a.len() {
                assert(ppf[x] == a[x]);
                assert(ppf[y] == a[y]);
            } else if x < a.len() {
                let k = y - a.len();
                assert(ppf[x] == a[x]);
                assert(ppf[y] == cp[k]);
                assert(s0.contains(ready[a[x].0].1));
                assert(ready[pos[2 * k]].1 == sp);
                assert(ready[pos[2 * k + 1]].1 == sp);
            } else {
                let k1 = x - a.len();
                let k2 = y - a.len();
                assert(ppf[x] == cp[k1]);
                assert(ppf[y] == cp[k2]);
                assert(pos[2 * k1] < pos[2 * k1 + 1]);
                assert(pos[2 * k1 + 1] < pos[2 * k2]);
                assert(pos[2 * k2] < pos[2 * k2 + 1]);
            }
        }
    }
}

/// Positions in `ready` of the two fish of each pair that `spec_pair_ready_fish` forms.
pub open spec fn spec_pair_positions(ready: Seq<(usize, Species)>) -> Seq<(int, int)> {
    spec_position_pairs_for(ready, spec_first_appearances(spec_species_of(ready)))
}

/// Each pair formed for an immediate mating is made of two fish of the same
/// species, listed in `ready` in that order (at the positions that
/// `spec_pair_positions` gives); when `ready` names every fish once, no fish is
/// paired with itself and no fish is in two pairs.
pub proof fn law_pairs_are_same_species_and_disjoint(ready: Seq<(usize, Species)>)
    ensures
        spec_pair_positions(ready).len() == spec_pair_ready_fish(ready).len(),
        forall|x: int|
            0 <= x < spec_pair_ready_fish(ready).len() ==> {
                let pair = #[trigger] spec_pair_ready_fish(ready)[x];
                let (a, b) = spec_pair_positions(ready)[x];
                &&& 0 <= a < b < ready.len()
                &&& ready[a].0 == pair.0
                &&& ready[b].0 == pair.1
                &&& ready[a].1 == ready[b].1
            },
        (forall|a: int, b: int| 0 <= a < b < ready.len() ==> ready[a].0 != ready[b].0) ==> forall|
            x: int,
            y: int,
        |
            0 <= x < spec_pair_ready_fish(ready).len() && 0 <= y < spec_pair_ready_fish(ready).len()
                ==> {
                let p = #[trigger] spec_pair_ready_fish(ready)[x];
                let q = #[trigger] spec_pair_ready_fish(ready)[y];
                &&& p.0 != p.1
                &&& x != y ==> p.0 != q.0 && p.0 != q.1 && p.1 != q.0 && p.1 != q.1
            },
{
    let sps = spec_first_appearances(spec_species_of(ready));
    lemma_first_appearances_distinct(spec_species_of(ready));
    lemma_position_pairs_for(ready, sps);
    lemma_position_pairs_disjoint(ready, sps);
    let ppf = spec_position_pairs_for(ready, sps);
    let pairs = spec_pair_ready_fish(ready);
    assert forall|x: int| 0 <= x < pairs.len() implies {
        let pair = #[trigger] pairs[x];
        let (a, b) = ppf[x];
        &&& 0 <= a < b < ready.len()
        &&& ready[a].0 == pair.0
        &&& ready[b].0 == pair.1
        &&& ready[a].1 == ready[b].1
    } by {
        let pp = ppf[x];
    }
    if forall|a: int, b: int| 0 <= a < b < ready.len() ==> ready[a].0 != ready[b].0 {
        assert forall|x: int, y: int|
            0 <= x < pairs.len() && 0 <= y < pairs.len() implies {
            let p = #[trigger] pairs[x];
            let q = #[trigger] pairs[y];
            &&& p.0 != p.1
            &&& x != y ==> p.0 != q.0 && p.0 != q.1 && p.1 != q.0 && p.1 != q.1
        } by {
            let px = ppf[x];
            let py = ppf[y];
            assert(ready[px.0].0 != ready[px.1].0);
            if x < y {
                assert(px.0 != py.0 && px.0 != py.1 && px.1 != py.0 && px.1 != py.1);
                assert(forall|a: int, b: int| 0 <= a < ready.len() && 0 <= b < ready.len() && a != b ==> ready[a].0 != ready[b].0);
            } else if y < x {
                assert(py.0 != px.0 && py.0 != px.1 && py.1 != px.0 && py.1 != px.1);
                assert(forall|a: int, b: int| 0 <= a < ready.len() && 0 <= b < ready.len() && a != b ==> ready[a].0 != ready[b].0);
            }
        }
    }
}


proof fn lemma_positions_complete(ready: Seq<(usize, Species)>, sp: Species, p: int)
    requires
        0 <= p < ready.len(),
        ready[p].1 == sp,
    ensures
        spec_positions_of(ready, sp).contains(p),
    decreases ready.len(),
{
    let before = spec_positions_of(ready.drop_last(), sp);
    if p < ready.len() - 1 {
        lemma_positions_complete(ready.drop_last(), sp, p);
        let t = choose|t: int| 0 <= t < before.len() && before[t] == p;
        if ready.last().1 == sp {
            assert(spec_positions_of(ready, sp)[t] == p);
        }
    } else {
        assert(spec_positions_of(ready, sp)[before.len() as int] == p);
    }
}

proof fn lemma_first_appearances_complete(s: Seq<Species>, i: int)
    requires
        0 <= i < s.len(),
    ensures
        spec_first_appearances(s).contains(s[i]),
    decreases s.len(),
{
    let before = spec_first_appearances(s.drop_last());
    if i < s.len() - 1 {
        lemma_first_appearances_complete(s.drop_last(), i);
        let t = choose|t: int| 0 <= t < before.len() && before[t] == s.drop_last()[i];
        if !before.contains(s.last()) {
            assert(spec_first_appearances(s)[t] == s[i]);
        }
    } else if !before.contains(s.last()) {
        assert(spec_first_appearances(s)[before.len() as int] == s[i]);
    }
}

proof fn lemma_pairs_for_species(ready: Seq<(usize, Species)>, sps: Seq<Species>, sp: Species)
    requires
        sps.contains(sp),
        spec_positions_of(ready, sp).len() >= 2,
    ensures
        exists|x: int|
            0 <= x < spec_position_pairs_for(ready, sps).len() && ready[(#[trigger] spec_position_pairs_for(
                ready,
                sps,
            )[x]).0].1 == sp,
    decreases sps.len(),
{
    let s0 = sps.drop_last();
    let a = spec_position_pairs_for(ready, s0);
    let pos = spec_positions_of(ready, sp);
    let ppf = spec_position_pairs_for(ready, sps);
    if sps.last() == sp {
        lemma_positions_of(ready, sp);
        let cp = spec_chunk_positions(pos);
        assert(ppf == a + cp);
        assert(cp[0] == (pos[0], pos[1]));
        assert(ppf[a.len() as int] == cp[0]);
        assert(ready[ppf[a.len() as int].0].1 == sp);
    } else {
        let j = choose|j: int| 0 <= j < sps.len() && sps[j] == sp;
        assert(j < sps.len() - 1);
        assert(s0[j] == sp);
        lemma_pairs_for_species(ready, s0, sp);
        let x = choose|x: int| 0 <= x < a.len() && ready[(#[trigger] a[x]).0].1 == sp;
        assert(ppf == a + spec_chunk_positions(spec_positions_of(ready, sps.last())));
        assert(ppf[x] == a[x]);
    }
}

/// Whenever two fish of one species are ready, at least one pair of that
/// species is formed.
pub proof fn law_two_ready_fish_of_a_species_make_a_pair(ready: Seq<(usize, Species)>, a: int, b: int)
    requires
        0 <= a < b < ready.len(),
        ready[a].1 == ready[b].1,
    ensures
        exists|x: int|
            0 <= x < spec_pair_ready_fish(ready).len() && ready[(#[trigger] spec_pair_positions(ready)[x]).0].1
                == ready[a].1,
{
    let sp = ready[a].1;
    let species = spec_species_of(ready);
    lemma_positions_complete(ready, sp, a);
    lemma_positions_complete(ready, sp, b);
    let pos = spec_positions_of(ready, sp);
    let ta = choose|t: int| 0 <= t < pos.len() && pos[t] == a;
    let tb = choose|t: int| 0 <= t < pos.len() && pos[t] == b;
    assert(ta != tb);
    assert(pos.len() >= 2);
    assert(species[a] == sp);
    lemma_first_appearances_complete(species, a);
    let sps = spec_first_appearances(species);
    lemma_pairs_for_species(ready, sps, sp);
    lemma_position_pairs_for(ready, sps);
    let ppf = spec_position_pairs_for(ready, sps);
    let x = choose|x: int| 0 <= x < ppf.len() && ready[(#[trigger] ppf[x]).0].1 == sp;
    assert(spec_pair_positions(ready)[x] == ppf[x]);
    assert(x < spec_pair_ready_fish(ready).len());
}

} // verus!
