//! Stable ordering of merged entries by a ranking count, largest first.
use vstd::prelude::*;
use crate::model::{MedalStat, WeaponStat};

verus! {

/// An entry with a count to rank it by.
pub trait Ranked: Sized {
    spec fn spec_rank(&self) -> u32;

    fn rank(&self) -> (r: u32)
        ensures
            r == self.spec_rank(),
    ;
}

impl Ranked for WeaponStat {
    open spec fn spec_rank(&self) -> u32 {
        self.kills
    }

    fn rank(&self) -> (r: u32) {
        self.kills
    }
}

impl Ranked for MedalStat {
    open spec fn spec_rank(&self) -> u32 {
        self.count
    }

    fn rank(&self) -> (r: u32) {
        self.count
    }
}

/// `x` placed in `s` before the first entry that does not outrank it.
pub open spec fn rank_insert<T: Ranked>(s: Seq<T>, x: T) -> Seq<T>
    decreases s.len(),
{
    if s.len() == 0 {
        seq![x]
    } else if s[0].spec_rank() <= x.spec_rank() {
        seq![x] + s
    } else {
        seq![s[0]] + rank_insert(s.drop_first(), x)
    }
}

/// `s` ordered by rank, largest first; entries of equal rank keep their order in `s`.
pub open spec fn rank_sorted<T: Ranked>(s: Seq<T>) -> Seq<T>
    decreases s.len(),
{
    if s.len() == 0 {
        s
    } else {
        rank_insert(rank_sorted(s.drop_first()), s[0])
    }
}

/// No entry is outranked by one after it.
pub open spec fn is_rank_desc<T: Ranked>(s: Seq<T>) -> bool {
    forall|i: int, j: int| 0 <= i < j < s.len() ==> s[i].spec_rank() >= s[j].spec_rank()
}

proof fn lemma_rank_insert_at<T: Ranked>(s: Seq<T>, x: T, i: int)
    requires
        0 <= i <= s.len(),
        forall|k: int| 0 <= k < i ==> s[k].spec_rank() > x.spec_rank(),
        i < s.len() ==> s[i].spec_rank() <= x.spec_rank(),
    ensures
        rank_insert(s, x) == s.insert(i, x),
    decreases s.len(),
{
    if s.len() == 0 {
        assert(rank_insert(s, x) =~= s.insert(i, x));
    } else if i == 0 {
        assert(rank_insert(s, x) =~= s.insert(i, x));
    } else {
        let r = s.drop_first();
        assert forall|k: int| 0 <= k < i - 1 implies r[k].spec_rank() > x.spec_rank() by {
            assert(r[k] == s[k + 1]);
        }
        lemma_rank_insert_at(r, x, i - 1);
        assert(rank_insert(s, x) =~= s.insert(i, x));
    }
}

proof fn lemma_rank_insert_keeps_desc<T: Ranked>(s: Seq<T>, x: T)
    requires
        is_rank_desc(s),
    ensures
        is_rank_desc(rank_insert(s, x)),
        rank_insert(s, x).len() == s.len() + 1,
        rank_insert(s, x)[0] == x || (s.len() > 0 && rank_insert(s, x)[0] == s[0]),
    decreases s.len(),
{
    if s.len() > 0 && s[0].spec_rank() > x.spec_rank() {
        let r = s.drop_first();
        lemma_rank_insert_keeps_desc(r, x);
        let t = rank_insert(s, x);
        let u = rank_insert(r, x);
        assert(t =~= seq![s[0]] + u);
        assert forall|i: int, j: int| 0 <= i < j < t.len() implies t[i].spec_rank()
            >= t[j].spec_rank() by {
            if i == 0 {
                assert(t[j] == u[j - 1]);
                if u[0] == x {
                    assert(u[0].spec_rank() >= u[j - 1].spec_rank());
                } else {
                    assert(u[0] == r[0]);
                    assert(u[0].spec_rank() >= u[j - 1].spec_rank());
                }
            } else {
                assert(t[i] == u[i - 1]);
                assert(t[j] == u[j - 1]);
            }
        }
    } else if s.len() > 0 {
        let t = rank_insert(s, x);
        assert(t =~= seq![x] + s);
        assert forall|i: int, j: int| 0 <= i < j < t.len() implies t[i].spec_rank()
            >= t[j].spec_rank() by {
            if i == 0 {
                assert(t[j] == s[j - 1]);
            } else {
                assert(t[i] == s[i - 1]);
                assert(t[j] == s[j - 1]);
            }
        }
    }
}

/// Placing an entry inserts it at some position and moves nothing else.
pub proof fn lemma_rank_insert_is_insert<T: Ranked>(s: Seq<T>, x: T) -> (i: int)
    ensures
        0 <= i <= s.len(),
        rank_insert(s, x) == s.insert(i, x),
    decreases s.len(),
{
    if s.len() == 0 || s[0].spec_rank() <= x.spec_rank() {
        assert(rank_insert(s, x) =~= s.insert(0, x));
        0
    } else {
        let j = lemma_rank_insert_is_insert(s.drop_first(), x);
        assert(rank_insert(s, x) =~= s.insert(j + 1, x));
        j + 1
    }
}

/// Ranking keeps the entries: the same length, and the same entries occur.
pub proof fn lemma_rank_sorted_same_entries<T: Ranked>(s: Seq<T>)
    ensures
        rank_sorted(s).len() == s.len(),
        forall|y: T| rank_sorted(s).contains(y) <==> s.contains(y),
    decreases s.len(),
{
    if s.len() > 0 {
        let d = s.drop_first();
        lemma_rank_sorted_same_entries(d);
        let r = rank_sorted(d);
        let i = lemma_rank_insert_is_insert(r, s[0]);
        let u = r.insert(i, s[0]);
        assert forall|y: T| u.contains(y) <==> s.contains(y) by {
            if u.contains(y) {
                let k = choose|k: int| 0 <= k < u.len() && u[k] == y;
                if k < i {
                    assert(r[k] == y);
                    assert(r.contains(y));
                    assert(d.contains(y));
                    let m = choose|m: int| 0 <= m < d.len() && d[m] == y;
                    assert(s[m + 1] == y);
                } else if k == i {
                    assert(s[0] == y);
                } else {
                    assert(r[k - 1] == y);
                    assert(r.contains(y));
                    assert(d.contains(y));
                    let m = choose|m: int| 0 <= m < d.len() && d[m] == y;
                    assert(s[m + 1] == y);
                }
            }
            if s.contains(y) {
                let k = choose|k: int| 0 <= k < s.len() && s[k] == y;
                if k == 0 {
                    assert(u[i] == y);
                } else {
                    assert(d[k - 1] == y);
                    assert(d.contains(y));
                    assert(r.contains(y));
                    assert(d.contains(y));
                    let m = choose|m: int| 0 <= m < r.len() && r[m] == y;
                    if m < i {
                        assert(u[m] == y);
                    } else {
                        assert(u[m + 1] == y);
                    }
                }
            }
        }
    }
}

/// Ranking puts no entry after one of a lower rank.
pub proof fn lemma_rank_sorted_desc<T: Ranked>(s: Seq<T>)
    ensures
        is_rank_desc(rank_sorted(s)),
        rank_sorted(s).len() == s.len(),
    decreases s.len(),
{
    if s.len() > 0 {
        lemma_rank_sorted_desc(s.drop_first());
        lemma_rank_insert_keeps_desc(rank_sorted(s.drop_first()), s[0]);
    }
}

/// Ranking a list that is already in rank order leaves it as it is.
pub proof fn lemma_rank_sorted_of_desc<T: Ranked>(s: Seq<T>)
    requires
        is_rank_desc(s),
    ensures
        rank_sorted(s) == s,
    decreases s.len(),
{
    if s.len() > 0 {
        let r = s.drop_first();
        assert(is_rank_desc(r)) by {
            assert forall|i: int, j: int| 0 <= i < j < r.len() implies r[i].spec_rank()
                >= r[j].spec_rank() by {
                assert(r[i] == s[i + 1]);
                assert(r[j] == s[j + 1]);
            }
        }
        lemma_rank_sorted_of_desc(r);
        if r.len() > 0 {
            assert(r[0] == s[1]);
        }
        assert(rank_insert(r, s[0]) =~= s);
    }
}

/// Ranking twice gives what ranking once gave.
pub proof fn lemma_rank_sorted_idempotent<T: Ranked>(s: Seq<T>)
    ensures
        rank_sorted(rank_sorted(s)) == rank_sorted(s),
{
    lemma_rank_sorted_desc(s);
    lemma_rank_sorted_of_desc(rank_sorted(s));
}

/// Orders `items` by rank, largest first, keeping the order of entries of equal rank.
pub fn sort_by_rank<T: Ranked>(items: Vec<T>) -> (r: Vec<T>)
    ensures
        r@ == rank_sorted(items@),
{
    let ghost orig = items@;
    let mut items = items;
    let mut out: Vec<T> = Vec::new();
    assert(orig.skip(orig.len() as int) =~= Seq::<T>::empty());
    while items.len() > 0
        invariant
            items.len() <= orig.len(),
            items@ == orig.take(items.len() as int),
            out@ == rank_sorted(orig.skip(items.len() as int)),
        decreases items.len(),
    {
        let ghost n = items.len() as int;
        let x = items.pop().unwrap();
        let xr = x.rank();
        assert(orig.skip(n - 1).drop_first() =~= orig.skip(n));
        assert(orig.skip(n - 1)[0] == x);
        assert(items@ =~= orig.take(n - 1));
        let mut i: usize = 0;
        while i < out.len() && out[i].rank() > xr
            invariant
                i <= out.len(),
                forall|k: int| 0 <= k < i ==> out@[k].spec_rank() > xr,
            decreases out.len() - i,
        {
            i = i + 1;
        }
        proof {
            lemma_rank_insert_at(out@, x, i as int);
        }
        out.insert(i, x);
    }
    assert(orig.skip(0) =~= orig);
    out
}

} // verus!
