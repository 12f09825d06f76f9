//! Time-ordering of light curves.
//!
//! Observation times arrive as IEEE-754 bit patterns. `time_key` maps such a
//! pattern to a `u64` whose unsigned order agrees with the numeric order of
//! the finite doubles it encodes (negative values below positive ones, the
//! two zeros adjacent); the patterns of non-numbers take the extreme keys, so
//! every curve has a total, deterministic order and sorting never fails.
//! `sort_by_time` stably sorts a curve by that key: ties — duplicate
//! timestamps are allowed — keep their original input order.

use vstd::prelude::*;
use crate::curve::Observation;

verus! {

/// Half of the `u64` range: the sign bit of an IEEE-754 double.
pub const SIGN_BIT: u64 = 0x8000_0000_0000_0000;

/// Order-preserving key of a time bit pattern: patterns with the sign bit
/// set (negative values) are reflected below the rest, so unsigned key order
/// matches the numeric order of the encoded values.
pub open spec fn spec_time_key(bits: u64) -> u64 {
    if bits >= SIGN_BIT {
        (u64::MAX - bits) as u64
    } else {
        (bits + SIGN_BIT) as u64
    }
}

/// Executable form of `spec_time_key`.
pub fn time_key(bits: u64) -> (k: u64)
    ensures
        k == spec_time_key(bits),
{
    if bits >= SIGN_BIT {
        u64::MAX - bits
    } else {
        bits + SIGN_BIT
    }
}

/// The key is a bijection on bit patterns: two observations share a time
/// key exactly when they share a timestamp pattern, so key distinctness is
/// timestamp distinctness.
pub proof fn lemma_time_key_injective(a: u64, b: u64)
    ensures
        spec_time_key(a) == spec_time_key(b) ==> a == b,
{
}

/// The sort order: ascending time key.
pub open spec fn time_le(a: Observation, b: Observation) -> bool {
    spec_time_key(a.t_bits) <= spec_time_key(b.t_bits)
}

/// A curve is in time order when every earlier observation's key is at most
/// every later one's.
pub open spec fn time_sorted(s: Seq<Observation>) -> bool {
    forall|i: int, j: int| 0 <= i <= j < s.len() ==> time_le(#[trigger] s[i], #[trigger] s[j])
}

/// Insert `x` into `s` before the first element whose key exceeds `x`'s, so
/// after every element it ties with: the position a stable sort gives to an
/// element arriving after all of `s`.
pub open spec fn insert_ordered(x: Observation, s: Seq<Observation>) -> Seq<Observation>
    decreases s.len(),
{
    if s.len() == 0 {
        seq![x]
    } else if spec_time_key(x.t_bits) < spec_time_key(s[0].t_bits) {
        seq![x] + s
    } else {
        seq![s[0]] + insert_ordered(x, s.subrange(1, s.len() as int))
    }
}

/// Stable insertion sort by time key: the canonical time-ordered form of a
/// curve.
pub open spec fn sort_curve(s: Seq<Observation>) -> Seq<Observation>
    decreases s.len(),
{
    if s.len() == 0 {
        Seq::empty()
    } else {
        insert_ordered(s.last(), sort_curve(s.drop_last()))
    }
}

/// Inserting at the first position whose element's key exceeds `x`'s is
/// exactly `insert_ordered`.
proof fn lemma_insert_ordered_at(x: Observation, s: Seq<Observation>, j: int)
    requires
        0 <= j <= s.len(),
        forall|i: int| 0 <= i < j ==> spec_time_key(#[trigger] s[i].t_bits) <= spec_time_key(
            x.t_bits,
        ),
        j < s.len() ==> spec_time_key(x.t_bits) < spec_time_key(s[j].t_bits),
    ensures
        insert_ordered(x, s) == s.insert(j, x),
    decreases s.len(),
{
    if s.len() == 0 {
        assert(insert_ordered(x, s) =~= s.insert(0, x));
    } else if j == 0 {
        assert(insert_ordered(x, s) =~= s.insert(0, x));
    } else {
        let tail = s.subrange(1, s.len() as int);
        assert(forall|i: int|
            0 <= i < j - 1 ==> spec_time_key(#[trigger] tail[i].t_bits) <= spec_time_key(
                x.t_bits,
            ));
        lemma_insert_ordered_at(x, tail, j - 1);
        assert(insert_ordered(x, s) =~= s.insert(j, x));
    }
}

/// Inserting into a time-ordered sequence keeps it time-ordered.
proof fn lemma_insert_ordered_sorted(x: Observation, s: Seq<Observation>)
    requires
        time_sorted(s),
    ensures
        time_sorted(insert_ordered(x, s)),
    decreases s.len(),
{
    if s.len() == 0 {
    } else if spec_time_key(x.t_bits) < spec_time_key(s[0].t_bits) {
        assert forall|i: int, j: int|
            0 <= i <= j < insert_ordered(x, s).len() implies time_le(
            #[trigger] insert_ordered(x, s)[i],
            #[trigger] insert_ordered(x, s)[j],
        ) by {
            if i > 0 {
                assert(insert_ordered(x, s)[i] == s[i - 1]);
                assert(insert_ordered(x, s)[j] == s[j - 1]);
            }
        }
    } else {
        let tail = s.subrange(1, s.len() as int);
        lemma_insert_ordered_sorted(x, tail);
        let r = seq![s[0]] + insert_ordered(x, tail);
        assert forall|i: int, j: int| 0 <= i <= j < r.len() implies time_le(
            #[trigger] r[i],
            #[trigger] r[j],
        ) by {
            lemma_insert_ordered_multiset(x, tail);
            if i == 0 && j > 0 {
                let e = r[j];
                assert(insert_ordered(x, tail)[j - 1] == e);
                assert(insert_ordered(x, tail).contains(e));
                assert(insert_ordered(x, tail).to_multiset().count(e) > 0) by {
                    insert_ordered(x, tail).to_multiset_ensures();
                }
                if e == x {
                    assert(time_le(s[0], x));
                } else {
                    assert(tail.to_multiset().insert(x).count(e) > 0);
                    assert(tail.to_multiset().count(e) > 0);
                    assert(tail.contains(e)) by {
                        tail.to_multiset_ensures();
                    }
                    let k = choose|k: int| 0 <= k < tail.len() && tail[k] == e;
                    assert(time_le(s[0], s[k + 1]));
                }
            }
        }
    }
}

/// Inserting adds exactly one occurrence of the inserted observation.
proof fn lemma_insert_ordered_multiset(x: Observation, s: Seq<Observation>)
    ensures
        insert_ordered(x, s).to_multiset() == s.to_multiset().insert(x),
        insert_ordered(x, s).len() == s.len() + 1,
    decreases s.len(),
{
    broadcast use vstd::seq_lib::group_to_multiset_ensures;

    if s.len() == 0 {
        assert(insert_ordered(x, s) =~= Seq::empty().push(x));
        assert(Seq::<Observation>::empty().push(x).to_multiset() =~= s.to_multiset().insert(x));
    } else if spec_time_key(x.t_bits) < spec_time_key(s[0].t_bits) {
        assert(insert_ordered(x, s) =~= s.insert(0, x));
        assert(s.insert(0, x).to_multiset() =~= s.to_multiset().insert(x)) by {
            lemma_insert_multiset(s, 0, x);
        }
    } else {
        let tail = s.subrange(1, s.len() as int);
        lemma_insert_ordered_multiset(x, tail);
        let r = seq![s[0]] + insert_ordered(x, tail);
        assert(r =~= insert_ordered(x, tail).insert(0, s[0]));
        lemma_insert_multiset(insert_ordered(x, tail), 0, s[0]);
        assert(s =~= tail.insert(0, s[0]));
        lemma_insert_multiset(tail, 0, s[0]);
        assert(r.to_multiset() =~= s.to_multiset().insert(x));
    }
}

/// Inserting into a sequence at any position inserts into its multiset.
proof fn lemma_insert_multiset(s: Seq<Observation>, j: int, x: Observation)
    requires
        0 <= j <= s.len(),
    ensures
        s.insert(j, x).to_multiset() == s.to_multiset().insert(x),
    decreases s.len() - j,
{
    broadcast use vstd::seq_lib::group_to_multiset_ensures;

    if j == s.len() {
        assert(s.insert(j, x) =~= s.push(x));
    } else {
        let last = s.last();
        let front = s.drop_last();
        assert(s.insert(j, x) =~= front.insert(j, x).push(last));
        lemma_insert_multiset(front, j, x);
        assert(s =~= front.push(last));
        assert(s.insert(j, x).to_multiset() =~= s.to_multiset().insert(x));
    }
}

/// Sorting keeps exactly the observations of the input.
pub proof fn lemma_sort_curve_permutes(s: Seq<Observation>)
    ensures
        sort_curve(s).to_multiset() == s.to_multiset(),
        sort_curve(s).len() == s.len(),
    decreases s.len(),
{
    broadcast use vstd::seq_lib::group_to_multiset_ensures;

    if s.len() == 0 {
    } else {
        lemma_sort_curve_permutes(s.drop_last());
        lemma_insert_ordered_multiset(s.last(), sort_curve(s.drop_last()));
        assert(s =~= s.drop_last().push(s.last()));
        assert(sort_curve(s).to_multiset() =~= s.to_multiset());
    }
}

/// Sorting yields a time-ordered curve.
pub proof fn lemma_sort_curve_sorted(s: Seq<Observation>)
    ensures
        time_sorted(sort_curve(s)),
    decreases s.len(),
{
    if s.len() > 0 {
        lemma_sort_curve_sorted(s.drop_last());
        lemma_insert_ordered_sorted(s.last(), sort_curve(s.drop_last()));
    }
}

/// A curve already in time order is its own canonical form: sorting it
/// changes nothing.
pub proof fn lemma_sort_curve_of_sorted(s: Seq<Observation>)
    requires
        time_sorted(s),
    ensures
        sort_curve(s) == s,
    decreases s.len(),
{
    if s.len() > 0 {
        let front = s.drop_last();
        assert(time_sorted(front)) by {
            assert(forall|i: int, j: int|
                0 <= i <= j < front.len() ==> time_le(#[trigger] s[i], #[trigger] s[j]));
        }
        lemma_sort_curve_of_sorted(front);
        assert(forall|i: int|
            0 <= i < front.len() ==> spec_time_key(#[trigger] front[i].t_bits) <= spec_time_key(
                s.last().t_bits,
            )) by {
            assert(forall|i: int| 0 <= i < front.len() ==> time_le(#[trigger] s[i], s.last()));
        }
        lemma_insert_ordered_at(s.last(), front, front.len() as int);
        assert(front.insert(front.len() as int, s.last()) =~= s);
    }
}

/// Sorting is idempotent: the canonical form of a canonical form is itself.
pub proof fn lemma_sort_curve_idempotent(s: Seq<Observation>)
    ensures
        sort_curve(sort_curve(s)) == sort_curve(s),
{
    lemma_sort_curve_sorted(s);
    lemma_sort_curve_of_sorted(sort_curve(s));
}

/// No two observations of the curve share a time key.
pub open spec fn distinct_time_keys(s: Seq<Observation>) -> bool {
    forall|i: int, j: int|
        #![trigger s[i], s[j]]
        0 <= i < j < s.len() ==> spec_time_key(s[i].t_bits) != spec_time_key(s[j].t_bits)
}

/// An observation standing at two positions occurs at least twice.
proof fn lemma_dup_positions_count(s: Seq<Observation>, i: int, j: int)
    requires
        0 <= i < j < s.len(),
        s[i] == s[j],
    ensures
        s.to_multiset().count(s[i]) >= 2,
{
    broadcast use vstd::seq_lib::group_to_multiset_ensures;

    let removed = s.remove(j);
    assert(removed.to_multiset() == s.to_multiset().remove(s[j]));
    assert(removed[i] == s[i]);
    assert(removed.contains(s[i]));
    assert(removed.to_multiset().count(s[i]) > 0);
    assert(s.to_multiset().count(s[j]) > 0) by {
        assert(s.contains(s[j]));
    }
    assert(s.to_multiset().remove(s[j]).count(s[i]) == s.to_multiset().count(s[i]) - 1);
}

/// An observation occurring at least twice stands at two positions.
proof fn lemma_count2_dup_positions(s: Seq<Observation>, e: Observation)
    ensures
        s.to_multiset().count(e) >= 2 ==> exists|i: int, j: int|
            #![trigger s[i], s[j]]
            0 <= i < j < s.len() && s[i] == e && s[j] == e,
{
    broadcast use vstd::seq_lib::group_to_multiset_ensures;

    if s.to_multiset().count(e) >= 2 {
        assert(s.contains(e));
        let i0 = choose|i0: int| 0 <= i0 < s.len() && s[i0] == e;
        let removed = s.remove(i0);
        assert(removed.to_multiset() == s.to_multiset().remove(s[i0]));
        assert(removed.to_multiset().count(e) == s.to_multiset().count(e) - 1);
        assert(removed.contains(e));
        let j0 = choose|j0: int| 0 <= j0 < removed.len() && removed[j0] == e;
        if j0 < i0 {
            assert(removed[j0] == s[j0]);
            assert(s[j0] == e && s[i0] == e);
        } else {
            assert(removed[j0] == s[j0 + 1]);
            assert(s[i0] == e && s[j0 + 1] == e);
        }
    }
}

/// Key distinctness is a property of the observations themselves: it
/// carries over to any rearrangement.
proof fn lemma_distinct_keys_transfer(s: Seq<Observation>, x: Seq<Observation>)
    requires
        distinct_time_keys(s),
        x.to_multiset() == s.to_multiset(),
    ensures
        distinct_time_keys(x),
{
    broadcast use vstd::seq_lib::group_to_multiset_ensures;

    assert forall|i: int, j: int|
        #![trigger x[i], x[j]]
        0 <= i < j < x.len() implies spec_time_key(x[i].t_bits) != spec_time_key(
        x[j].t_bits,
    ) by {
        if x[i] == x[j] {
            lemma_dup_positions_count(x, i, j);
            lemma_count2_dup_positions(s, x[i]);
            assert(s.to_multiset().count(x[i]) >= 2);
            let (p, q): (int, int) = choose|p: int, q: int|
                #![trigger s[p], s[q]]
                0 <= p < q < s.len() && s[p] == x[i] && s[q] == x[i];
            assert(spec_time_key(s[p].t_bits) != spec_time_key(s[q].t_bits));
        } else {
            assert(x.contains(x[i]) && x.contains(x[j]));
            assert(s.to_multiset().count(x[i]) > 0 && s.to_multiset().count(x[j]) > 0);
            assert(s.contains(x[i]) && s.contains(x[j]));
            let p = choose|p: int| 0 <= p < s.len() && s[p] == x[i];
            let q = choose|q: int| 0 <= q < s.len() && s[q] == x[j];
            assert(p != q);
            if p < q {
                assert(spec_time_key(s[p].t_bits) != spec_time_key(s[q].t_bits));
            } else {
                assert(spec_time_key(s[q].t_bits) != spec_time_key(s[p].t_bits));
            }
        }
    }
}

/// A time-ordered arrangement of observations without key ties is unique:
/// two sorted curves of the same observations are equal.
proof fn lemma_sorted_multiset_unique(a: Seq<Observation>, b: Seq<Observation>)
    requires
        time_sorted(a),
        time_sorted(b),
        a.to_multiset() == b.to_multiset(),
        distinct_time_keys(a),
    ensures
        a == b,
    decreases a.len(),
{
    broadcast use vstd::seq_lib::group_to_multiset_ensures;

    if a.len() == 0 {
        assert(b.to_multiset().len() == 0);
        assert(a =~= b);
    } else {
        a.to_multiset_ensures();
        b.to_multiset_ensures();
        assert(b.len() == a.len());
        let e = a[0];
        let f = b[0];
        assert(a.contains(e));
        assert(b.to_multiset().count(e) > 0);
        assert(b.contains(e));
        let k = choose|k: int| 0 <= k < b.len() && b[k] == e;
        assert(a.to_multiset().count(f) > 0) by {
            assert(b.contains(f));
        }
        assert(a.contains(f));
        let l = choose|l: int| 0 <= l < a.len() && a[l] == f;
        assert(time_le(a[0], a[l]));
        assert(time_le(b[0], b[k]));
        assert(spec_time_key(e.t_bits) == spec_time_key(f.t_bits));
        if l != 0 {
            assert(spec_time_key(a[0].t_bits) != spec_time_key(a[l].t_bits));
            assert(false);
        }
        assert(a[0] == b[0]);
        let ar = a.drop_first();
        let br = b.drop_first();
        assert(ar =~= a.remove(0));
        assert(br =~= b.remove(0));
        assert(a.remove(0).to_multiset() == a.to_multiset().remove(a[0]));
        assert(b.remove(0).to_multiset() == b.to_multiset().remove(b[0]));
        assert(ar.to_multiset() == br.to_multiset());
        assert(time_sorted(ar)) by {
            assert(forall|i: int, j: int|
                0 <= i <= j < ar.len() ==> time_le(#[trigger] a[i + 1], #[trigger] a[j + 1]));
        }
        assert(time_sorted(br)) by {
            assert(forall|i: int, j: int|
                0 <= i <= j < br.len() ==> time_le(#[trigger] b[i + 1], #[trigger] b[j + 1]));
        }
        assert(distinct_time_keys(ar)) by {
            assert(forall|i: int, j: int|
                #![trigger ar[i], ar[j]]
                0 <= i < j < ar.len() ==> spec_time_key(a[i + 1].t_bits) != spec_time_key(
                    a[j + 1].t_bits,
                ));
        }
        lemma_sorted_multiset_unique(ar, br);
        assert(a =~= b) by {
            assert(forall|i: int| 1 <= i < a.len() ==> #[trigger] a[i] == ar[i - 1]);
            assert(forall|i: int| 1 <= i < b.len() ==> #[trigger] b[i] == br[i - 1]);
        }
    }
}

/// Sorting is insensitive to input order: two arrangements of the same
/// observations, no two of which share a time key, sort to the same curve.
/// (With tied keys the stable sort keeps each arrangement's own input
/// order instead.)
pub proof fn lemma_sort_curve_order_insensitive(s: Seq<Observation>, p: Seq<Observation>)
    requires
        p.to_multiset() == s.to_multiset(),
        distinct_time_keys(s),
    ensures
        sort_curve(p) == sort_curve(s),
{
    lemma_sort_curve_sorted(s);
    lemma_sort_curve_sorted(p);
    lemma_sort_curve_permutes(s);
    lemma_sort_curve_permutes(p);
    lemma_distinct_keys_transfer(s, sort_curve(s));
    lemma_sorted_multiset_unique(sort_curve(s), sort_curve(p));
}

/// Stably sort a curve in place by ascending time key. The result is the
/// canonical time-ordered form: deterministic, with ties kept in input
/// order.
pub fn sort_by_time(v: &mut Vec<Observation>)
    ensures
        final(v)@ == sort_curve(old(v)@),
        time_sorted(final(v)@),
        final(v)@.to_multiset() == old(v)@.to_multiset(),
        final(v)@.len() == old(v)@.len(),
{
    let ghost input = v@;
    let mut out: Vec<Observation> = Vec::new();
    let n = v.len();
    assert(input.subrange(0, 0) =~= Seq::empty());
    for k in 0..n
        invariant
            n == input.len(),
            v@ == input,
            out@ == sort_curve(input.subrange(0, k as int)),
            time_sorted(out@),
            out@.len() == k,
    {
        let x = v[k];
        let key_x = time_key(x.t_bits);
        let mut j: usize = 0;
        while j < out.len() && time_key(out[j].t_bits) <= key_x
            invariant
                0 <= j <= out@.len(),
                key_x == spec_time_key(x.t_bits),
                forall|i: int|
                    0 <= i < j ==> spec_time_key(#[trigger] out@[i].t_bits) <= spec_time_key(
                        x.t_bits,
                    ),
            decreases out@.len() - j,
        {
            j += 1;
        }
        let ghost out_before = out@;
        out.insert(j, x);
        proof {
            lemma_insert_ordered_at(x, out_before, j as int);
            assert(input.subrange(0, k + 1 as int) =~= input.subrange(0, k as int).push(
                input[k as int],
            ));
            assert(input.subrange(0, k + 1 as int).drop_last() =~= input.subrange(0, k as int));
            lemma_insert_ordered_sorted(x, out_before);
        }
    }
    assert(input.subrange(0, n as int) =~= input);
    proof {
        lemma_sort_curve_permutes(input);
    }
    *v = out;
}

} // verus!
