//! Ordered activation tables.
//!
//! A table is a sequence of `(hardfork, condition)` pairs for one chain,
//! sorted by the hardfork's canonical ordinal with no duplicate entries.  The
//! functions here build such a table from an unordered list and look a
//! hardfork's condition up by ordered search; a miss means the hardfork is not
//! scheduled on the chain and yields [`ForkCondition::Never`].

use vstd::prelude::*;

use crate::condition::ForkCondition;
use crate::condition::spec_no_later_than;
use crate::hardfork::Hardfork;

verus! {

/// True when the table's activation conditions are monotonic along it:
/// an earlier entry activates no later than a later one, in whichever space
/// both are defined.
pub open spec fn spec_conditions_monotonic<F: Hardfork>(s: Seq<(F, ForkCondition)>) -> bool {
    forall|i: int, j: int| 0 <= i < j < s.len() ==> spec_no_later_than(s[i].1, s[j].1)
}

/// The condition a table associates with `fork`: the condition of the first
/// entry naming `fork`, or `Never` when no entry does.
pub open spec fn spec_condition_of<F: Hardfork>(
    s: Seq<(F, ForkCondition)>,
    fork: F,
) -> ForkCondition
    decreases s.len(),
{
    if s.len() == 0 {
        ForkCondition::Never
    } else if s[0].0 == fork {
        s[0].1
    } else {
        spec_condition_of(s.drop_first(), fork)
    }
}

/// True when some entry of the table names `fork`.
pub open spec fn spec_contains_fork<F: Hardfork>(s: Seq<(F, ForkCondition)>, fork: F) -> bool {
    exists|i: int| 0 <= i < s.len() && s[i].0 == fork
}

/// True when the table's entries are in strictly increasing canonical order,
/// which also rules out duplicate names.
pub open spec fn spec_sorted_strict<F: Hardfork>(s: Seq<(F, ForkCondition)>) -> bool {
    forall|i: int, j: int|
        0 <= i < j < s.len() ==> s[i].0.spec_ordinal() < s[j].0.spec_ordinal()
}

/// True when no two entries of the table share a canonical ordinal.
pub open spec fn spec_distinct_forks<F: Hardfork>(s: Seq<(F, ForkCondition)>) -> bool {
    forall|i: int, j: int|
        0 <= i < j < s.len() ==> s[i].0.spec_ordinal() != s[j].0.spec_ordinal()
}

/// True when each entry's canonical ordinal is strictly below its
/// successor's; by transitivity this is the same as [`spec_sorted_strict`].
pub open spec fn spec_sorted_adjacent<F: Hardfork>(s: Seq<(F, ForkCondition)>) -> bool {
    forall|i: int|
        0 <= i < s.len() - 1 ==> #[trigger] s[i].0.spec_ordinal() < s[i + 1].0.spec_ordinal()
}

/// Canonical ordinals grow along a table whose adjacent entries are ordered.
proof fn lemma_ordinal_grows<F: Hardfork>(s: Seq<(F, ForkCondition)>, i: int, j: int)
    requires
        spec_sorted_adjacent(s),
        0 <= i < j < s.len(),
    ensures
        s[i].0.spec_ordinal() < s[j].0.spec_ordinal(),
    decreases j - i,
{
    if j > i + 1 {
        lemma_ordinal_grows(s, i, j - 1);
    }
}

/// A table whose adjacent entries are in increasing canonical order is
/// sorted outright.
pub proof fn lemma_adjacent_sorted_is_sorted<F: Hardfork>(s: Seq<(F, ForkCondition)>)
    requires
        spec_sorted_adjacent(s),
    ensures
        spec_sorted_strict(s),
{
    assert forall|i: int, j: int|
        0 <= i < j < s.len() implies s[i].0.spec_ordinal() < s[j].0.spec_ordinal() by {
        lemma_ordinal_grows(s, i, j);
    }
}

/// In a sorted table, ordinals grow at least as fast as positions.
proof fn lemma_prefix_lower<F: Hardfork>(s: Seq<(F, ForkCondition)>, i: int)
    requires
        spec_sorted_strict(s),
        forall|k: int| 0 <= k < s.len() ==> 0 <= #[trigger] s[k].0.spec_ordinal(),
        0 <= i < s.len(),
    ensures
        s[i].0.spec_ordinal() >= i,
    decreases i,
{
    if i > 0 {
        lemma_prefix_lower(s, i - 1);
    }
}

/// In a sorted table whose ordinals stay below its length, ordinals grow no
/// faster than positions.
proof fn lemma_prefix_upper<F: Hardfork>(s: Seq<(F, ForkCondition)>, i: int)
    requires
        spec_sorted_strict(s),
        forall|k: int| 0 <= k < s.len() ==> #[trigger] s[k].0.spec_ordinal() < s.len(),
        0 <= i < s.len(),
    ensures
        s[i].0.spec_ordinal() <= i,
    decreases s.len() - i,
{
    if i < s.len() - 1 {
        lemma_prefix_upper(s, i + 1);
    }
}

/// A sorted table whose canonical ordinals all lie below its length is an
/// ordinal prefix: the entry at each position carries exactly that ordinal.
pub proof fn lemma_sorted_bounded_is_prefix<F: Hardfork>(s: Seq<(F, ForkCondition)>)
    requires
        spec_sorted_strict(s),
        forall|k: int| 0 <= k < s.len() ==> 0 <= #[trigger] s[k].0.spec_ordinal() < s.len(),
    ensures
        forall|k: int| 0 <= k < s.len() ==> #[trigger] s[k].0.spec_ordinal() == k,
{
    assert forall|k: int| 0 <= k < s.len() implies #[trigger] s[k].0.spec_ordinal() == k by {
        lemma_prefix_lower(s, k);
        lemma_prefix_upper(s, k);
    }
}

/// A table lookup misses exactly on the hardforks the table does not list.
pub proof fn lemma_condition_of_absent<F: Hardfork>(s: Seq<(F, ForkCondition)>, fork: F)
    requires
        !spec_contains_fork(s, fork),
    ensures
        spec_condition_of(s, fork) == ForkCondition::Never,
    decreases s.len(),
{
    if s.len() > 0 {
        assert(s[0].0 != fork);
        assert(forall|i: int|
            0 <= i < s.drop_first().len() ==> s.drop_first()[i] == s[i + 1]);
        lemma_condition_of_absent(s.drop_first(), fork);
    }
}

/// A listed hardfork's looked-up condition is one the table pairs it with.
pub proof fn lemma_condition_of_present<F: Hardfork>(s: Seq<(F, ForkCondition)>, fork: F)
    requires
        spec_contains_fork(s, fork),
    ensures
        s.contains((fork, spec_condition_of(s, fork))),
    decreases s.len(),
{
    if s[0].0 == fork {
        assert(s[0] == (fork, spec_condition_of(s, fork)));
    } else {
        let i = choose|i: int| 0 <= i < s.len() && s[i].0 == fork;
        assert(s.drop_first()[i - 1].0 == fork);
        lemma_condition_of_present(s.drop_first(), fork);
        let c = spec_condition_of(s.drop_first(), fork);
        let j = choose|j: int| 0 <= j < s.drop_first().len() && s.drop_first()[j] == (fork, c);
        assert(s[j + 1] == (fork, c));
    }
}

/// In a table without duplicate names, the looked-up condition of a hardfork
/// is the condition of any entry naming it.
pub proof fn lemma_condition_of_unique<F: Hardfork>(
    s: Seq<(F, ForkCondition)>,
    fork: F,
    c: ForkCondition,
)
    requires
        spec_distinct_forks(s),
        s.contains((fork, c)),
    ensures
        spec_condition_of(s, fork) == c,
    decreases s.len(),
{
    let i = choose|i: int| 0 <= i < s.len() && s[i] == (fork, c);
    if s[0].0 == fork {
        if i > 0 {
            assert(s[0].0.spec_ordinal() != s[i].0.spec_ordinal());
        }
        assert(s[0] == (fork, c));
    } else {
        assert(i > 0);
        assert(s.drop_first()[i - 1] == (fork, c));
        assert(forall|p: int, q: int|
            0 <= p < q < s.drop_first().len() ==> s.drop_first()[p] == s[p + 1]
                && s.drop_first()[q] == s[q + 1]);
        lemma_condition_of_unique(s.drop_first(), fork, c);
    }
}

/// A lookup yields `Never` exactly for the hardforks the table does not
/// list, provided the table never stores `Never` as a condition — a table
/// schedules forks, and an unscheduled fork is simply left out.
pub proof fn lemma_lookup_never_iff_absent<F: Hardfork>(s: Seq<(F, ForkCondition)>, fork: F)
    requires
        forall|i: int| 0 <= i < s.len() ==> #[trigger] s[i].1 != ForkCondition::Never,
    ensures
        (spec_condition_of(s, fork) == ForkCondition::Never) <==> !spec_contains_fork(s, fork),
{
    if spec_contains_fork(s, fork) {
        lemma_condition_of_present(s, fork);
        let i = choose|i: int|
            0 <= i < s.len() && s[i] == (fork, spec_condition_of(s, fork));
        assert(s[i].1 != ForkCondition::Never);
    } else {
        lemma_condition_of_absent(s, fork);
    }
}

/// Two duplicate-free tables listing the same entries associate every hardfork
/// with the same condition.
pub proof fn lemma_condition_of_same_entries<F: Hardfork>(
    a: Seq<(F, ForkCondition)>,
    b: Seq<(F, ForkCondition)>,
)
    requires
        spec_distinct_forks(a),
        spec_distinct_forks(b),
        forall|q: (F, ForkCondition)| a.contains(q) <==> b.contains(q),
    ensures
        forall|fork: F| spec_condition_of(a, fork) == spec_condition_of(b, fork),
{
    assert forall|fork: F| spec_condition_of(a, fork) == spec_condition_of(b, fork) by {
        if spec_contains_fork(a, fork) {
            lemma_condition_of_present(a, fork);
            let c = spec_condition_of(a, fork);
            assert(b.contains((fork, c)));
            lemma_condition_of_unique(b, fork, c);
        } else {
            lemma_condition_of_absent(a, fork);
            if spec_contains_fork(b, fork) {
                lemma_condition_of_present(b, fork);
                let c = spec_condition_of(b, fork);
                let j = choose|j: int| 0 <= j < b.len() && b[j] == (fork, c);
                assert(a.contains((fork, c)));
                let i = choose|i: int| 0 <= i < a.len() && a[i] == (fork, c);
                assert(a[i].0 == fork);
                assert(false);
            } else {
                lemma_condition_of_absent(b, fork);
            }
        }
    }
}

/// A table in strictly increasing canonical order is determined by its
/// entries: two sorted tables of the same length listing the same entries are
/// equal.
pub proof fn lemma_sorted_same_entries_equal<F: Hardfork>(
    a: Seq<(F, ForkCondition)>,
    b: Seq<(F, ForkCondition)>,
)
    requires
        spec_sorted_strict(a),
        spec_sorted_strict(b),
        a.len() == b.len(),
        forall|q: (F, ForkCondition)| a.contains(q) <==> b.contains(q),
    ensures
        a == b,
    decreases a.len(),
{
    if a.len() > 0 {
        assert(b.contains(a[0]));
        assert(a.contains(b[0]));
        let k = choose|k: int| 0 <= k < b.len() && b[k] == a[0];
        let m = choose|m: int| 0 <= m < a.len() && a[m] == b[0];
        assert(b[0].0.spec_ordinal() <= b[k].0.spec_ordinal());
        assert(a[0].0.spec_ordinal() <= a[m].0.spec_ordinal());
        assert(a[0].0.spec_ordinal() == b[0].0.spec_ordinal());
        if k > 0 {
            assert(b[0].0.spec_ordinal() < b[k].0.spec_ordinal());
        }
        assert(a[0] == b[0]);
        let at = a.drop_first();
        let bt = b.drop_first();
        assert(forall|i: int| 0 <= i < at.len() ==> at[i] == a[i + 1]);
        assert(forall|i: int| 0 <= i < bt.len() ==> bt[i] == b[i + 1]);
        assert forall|q: (F, ForkCondition)| at.contains(q) <==> bt.contains(q) by {
            if at.contains(q) {
                let i = choose|i: int| 0 <= i < at.len() && at[i] == q;
                assert(a[i + 1] == q);
                assert(b.contains(q));
                let j = choose|j: int| 0 <= j < b.len() && b[j] == q;
                if j == 0 {
                    assert(a[m] == q);
                    assert(a[0].0.spec_ordinal() < a[i + 1].0.spec_ordinal());
                    assert(false);
                }
                assert(bt[j - 1] == q);
            }
            if bt.contains(q) {
                let i = choose|i: int| 0 <= i < bt.len() && bt[i] == q;
                assert(b[i + 1] == q);
                assert(a.contains(q));
                let j = choose|j: int| 0 <= j < a.len() && a[j] == q;
                if j == 0 {
                    assert(b[k] == q);
                    assert(b[0].0.spec_ordinal() < b[i + 1].0.spec_ordinal());
                    assert(false);
                }
                assert(at[j - 1] == q);
            }
        }
        lemma_sorted_same_entries_equal(at, bt);
        assert forall|i: int| 0 <= i < a.len() implies a[i] == b[i] by {
            if i > 0 {
                assert(at[i - 1] == a[i]);
                assert(bt[i - 1] == b[i]);
            }
        }
        assert(a =~= b);
    } else {
        assert(a =~= b);
    }
}

/// Inserts `p` into a table kept in strictly increasing canonical order, at
/// the position that keeps it so.
fn sorted_insert<F: Hardfork + Copy>(v: &mut Vec<(F, ForkCondition)>, p: (F, ForkCondition))
    requires
        spec_sorted_strict(old(v)@),
        forall|i: int|
            0 <= i < old(v)@.len() ==> old(v)@[i].0.spec_ordinal() != p.0.spec_ordinal(),
    ensures
        spec_sorted_strict(final(v)@),
        final(v)@.len() == old(v)@.len() + 1,
        forall|q: (F, ForkCondition)|
            final(v)@.contains(q) <==> (old(v)@.contains(q) || q == p),
{
    let p_idx = p.0.idx();
    let mut pos: usize = 0;
    while pos < v.len()
        invariant
            pos <= v@.len(),
            v@ == old(v)@,
            p_idx as int == p.0.spec_ordinal(),
            forall|i: int|
                0 <= i < old(v)@.len() ==> old(v)@[i].0.spec_ordinal() != p_idx as int,
            forall|i: int| 0 <= i < pos ==> v@[i].0.spec_ordinal() < p_idx as int,
        ensures
            pos <= v@.len(),
            v@ == old(v)@,
            forall|i: int| 0 <= i < pos ==> v@[i].0.spec_ordinal() < p_idx as int,
            pos < v@.len() ==> v@[pos as int].0.spec_ordinal() > p_idx as int,
        decreases v@.len() - pos,
    {
        if v[pos].0.idx() >= p_idx {
            proof {
                assert(v@[pos as int] == old(v)@[pos as int]);
                assert(old(v)@[pos as int].0.spec_ordinal() != p_idx as int);
            }
            break;
        }
        pos += 1;
    }
    proof {
        old(v)@.insert_ensures(pos as int, p);
        assert forall|i: int|
            pos <= i < old(v)@.len() implies #[trigger] old(v)@[i].0.spec_ordinal()
            > p_idx as int by {
            if i > pos {
                assert(old(v)@[pos as int].0.spec_ordinal() < old(v)@[i].0.spec_ordinal());
            }
        }
    }
    v.insert(pos, p);
    proof {
        let s = old(v)@;
        let t = v@;
        assert(t == s.insert(pos as int, p));
        assert forall|i: int, j: int|
            0 <= i < j < t.len() implies t[i].0.spec_ordinal() < t[j].0.spec_ordinal() by {
            s.insert_ensures(pos as int, p);
        }
        assert forall|q: (F, ForkCondition)| t.contains(q) <==> (s.contains(q) || q == p) by {
            s.insert_ensures(pos as int, p);
            if t.contains(q) {
                let i = choose|i: int| 0 <= i < t.len() && t[i] == q;
                if i < pos {
                    assert(s[i] == q);
                } else if i == pos {
                    assert(q == p);
                } else {
                    assert(t[(i - 1) + 1] == s[i - 1]);
                    assert(s[i - 1] == q);
                }
            }
            if s.contains(q) {
                let i = choose|i: int| 0 <= i < s.len() && s[i] == q;
                if i < pos {
                    assert(t[i] == q);
                } else {
                    assert(t[i + 1] == q);
                }
            }
            if q == p {
                assert(t[pos as int] == q);
            }
        }
    }
}

/// Sorts a duplicate-free list of activation entries into canonical order.
///
/// The result lists exactly the entries of the input, in strictly increasing
/// canonical order, and therefore associates every hardfork with the same
/// condition the input does.
pub fn sort_forks<F: Hardfork + Copy>(input: Vec<(F, ForkCondition)>) -> (r: Vec<
    (F, ForkCondition),
>)
    requires
        spec_distinct_forks(input@),
    ensures
        spec_sorted_strict(r@),
        r@.len() == input@.len(),
        forall|q: (F, ForkCondition)| r@.contains(q) <==> input@.contains(q),
        forall|fork: F| spec_condition_of(r@, fork) == spec_condition_of(input@, fork),
        spec_sorted_strict(input@) ==> r@ == input@,
{
    let mut out: Vec<(F, ForkCondition)> = Vec::new();
    let mut i: usize = 0;
    while i < input.len()
        invariant
            i <= input@.len(),
            spec_distinct_forks(input@),
            spec_sorted_strict(out@),
            out@.len() == i as int,
            forall|q: (F, ForkCondition)| out@.contains(q) <==> input@.take(i as int).contains(q),
        decreases input@.len() - i,
    {
        let p = input[i];
        proof {
            assert forall|k: int|
                0 <= k < out@.len() implies out@[k].0.spec_ordinal() != p.0.spec_ordinal() by {
                assert(out@.contains(out@[k]));
                let j = choose|j: int|
                    0 <= j < input@.take(i as int).len() && input@.take(i as int)[j] == out@[k];
                assert(input@[j] == out@[k]);
                assert(input@[j].0.spec_ordinal() != input@[i as int].0.spec_ordinal());
            }
        }
        sorted_insert(&mut out, p);
        proof {
            let pre = input@.take(i as int);
            let post = input@.take(i as int + 1);
            assert(post == pre.push(p));
            assert forall|q: (F, ForkCondition)| out@.contains(q) <==> post.contains(q) by {
                if post.contains(q) {
                    let j = choose|j: int| 0 <= j < post.len() && post[j] == q;
                    if j < pre.len() {
                        assert(pre[j] == q);
                    } else {
                        assert(q == p);
                    }
                }
                if pre.contains(q) {
                    let j = choose|j: int| 0 <= j < pre.len() && pre[j] == q;
                    assert(post[j] == q);
                }
                if q == p {
                    assert(post[post.len() - 1] == q);
                }
            }
        }
        i += 1;
    }
    proof {
        assert(input@.take(input@.len() as int) == input@);
        lemma_condition_of_same_entries(out@, input@);
        if spec_sorted_strict(input@) {
            lemma_sorted_same_entries_equal(out@, input@);
        }
    }
    out
}

/// Looks up the condition a sorted table associates with `fork` by binary
/// search over the canonical ordinals; a miss yields `Never`.
pub fn lookup_condition<F: Hardfork + Copy>(v: &Vec<(F, ForkCondition)>, fork: F) -> (r:
    ForkCondition)
    requires
        spec_sorted_strict(v@),
    ensures
        r == spec_condition_of(v@, fork),
{
    let target = fork.idx();
    let mut lo: usize = 0;
    let mut hi: usize = v.len();
    while lo < hi
        invariant
            lo <= hi <= v@.len(),
            spec_sorted_strict(v@),
            target as int == fork.spec_ordinal(),
            forall|i: int| 0 <= i < lo ==> v@[i].0.spec_ordinal() < target as int,
            forall|i: int| hi <= i < v@.len() ==> v@[i].0.spec_ordinal() > target as int,
        decreases hi - lo,
    {
        let mid = lo + (hi - lo) / 2;
        let mid_idx = v[mid].0.idx();
        if mid_idx < target {
            proof {
                assert forall|i: int|
                    0 <= i < mid + 1 implies v@[i].0.spec_ordinal() < target as int by {
                    if i < mid {
                        assert(v@[i].0.spec_ordinal() < v@[mid as int].0.spec_ordinal());
                    }
                }
            }
            lo = mid + 1;
        } else if mid_idx > target {
            proof {
                assert forall|i: int|
                    mid <= i < v@.len() implies v@[i].0.spec_ordinal() > target as int by {
                    if i > mid {
                        assert(v@[mid as int].0.spec_ordinal() < v@[i].0.spec_ordinal());
                    }
                }
            }
            hi = mid;
        } else {
            let r = v[mid].1;
            proof {
                F::lemma_ordinal_injective(v@[mid as int].0, fork);
                assert(v@.contains((fork, r)));
                lemma_condition_of_unique(v@, fork, r);
            }
            return r;
        }
    }
    proof {
        assert forall|i: int| 0 <= i < v@.len() implies v@[i].0 != fork by {
            if v@[i].0 == fork {
                assert(v@[i].0.spec_ordinal() == fork.spec_ordinal());
            }
        }
        lemma_condition_of_absent(v@, fork);
    }
    ForkCondition::Never
}

} // verus!
