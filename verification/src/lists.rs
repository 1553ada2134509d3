//! Searching and filtering lists.
use vstd::prelude::*;

verus! {

/// `i` is the first index at which `p` holds.
pub open spec fn is_first<T>(s: Seq<T>, p: spec_fn(T) -> bool, i: int) -> bool {
    &&& 0 <= i < s.len()
    &&& p(s[i])
    &&& forall|j: int| 0 <= j < i ==> !p(#[trigger] s[j])
}

/// The first index at which `p` holds, if there is one.
pub open spec fn first_index<T>(s: Seq<T>, p: spec_fn(T) -> bool) -> Option<int> {
    if exists|i: int| is_first(s, p, i) {
        Some(choose|i: int| is_first(s, p, i))
    } else {
        None
    }
}

/// Where `p` does not hold.
pub open spec fn not(p: spec_fn(u64) -> bool) -> spec_fn(u64) -> bool {
    |id: u64| !p(id)
}

/// Everything but `x`.
pub open spec fn other_than(x: u64) -> spec_fn(u64) -> bool {
    |y: u64| y != x
}

/// Nothing is in both lists.
pub open spec fn disjoint(a: Seq<u64>, b: Seq<u64>) -> bool {
    forall|id: u64| #[trigger] a.contains(id) ==> !b.contains(id)
}

/// There is only one first index.
pub proof fn lemma_first_is<T>(s: Seq<T>, p: spec_fn(T) -> bool, i: int)
    requires
        is_first(s, p, i),
    ensures
        first_index(s, p) == Some(i),
{
    let k = choose|k: int| is_first(s, p, k);
    assert(is_first(s, p, k));
    if k < i {
        assert(!p(s[k]));
    } else if i < k {
        assert(!p(s[i]));
    }
}

/// Where `p` holds somewhere, there is a first index.
pub proof fn lemma_first_exists<T>(s: Seq<T>, p: spec_fn(T) -> bool, i: int)
    requires
        0 <= i < s.len(),
        p(s[i]),
    ensures
        first_index(s, p) is Some,
        is_first(s, p, first_index(s, p)->0),
    decreases i,
{
    if exists|j: int| 0 <= j < i && p(s[j]) {
        let j = choose|j: int| 0 <= j < i && p(s[j]);
        lemma_first_exists(s, p, j);
    } else {
        assert(is_first(s, p, i));
        lemma_first_is(s, p, i);
    }
}

/// The index of the first of `s` that equals `x`.
pub fn position(s: &Vec<u64>, x: u64) -> (r: Option<usize>)
    ensures
        match r {
            Some(i) => i < s.len() && s@[i as int] == x && !s@.take(i as int).contains(x),
            None => !s@.contains(x),
        },
{
    let mut i: usize = 0;
    while i < s.len()
        invariant
            i <= s.len(),
            forall|j: int| 0 <= j < i ==> s@[j] != x,
        decreases s.len() - i,
    {
        if s[i] == x {
            return Some(i);
        }
        i += 1;
    }
    None
}

/// Removes every occurrence of `x`.
pub fn remove_all(s: &mut Vec<u64>, x: u64)
    ensures
        final(s)@ == old(s)@.filter(other_than(x)),
{
    let mut kept: Vec<u64> = Vec::new();
    let mut i: usize = 0;
    proof {
        reveal(Seq::filter);
        assert(s@.take(0) =~= Seq::<u64>::empty());
    }
    while i < s.len()
        invariant
            i <= s.len(),
            kept@ == s@.take(i as int).filter(other_than(x)),
            *s == *old(s),
        decreases s.len() - i,
    {
        proof {
            reveal(Seq::filter);
            assert(s@.take(i + 1).drop_last() =~= s@.take(i as int));
        }
        if s[i] != x {
            kept.push(s[i]);
        }
        i += 1;
    }
    proof {
        assert(s@.take(s@.len() as int) =~= s@);
    }
    *s = kept;
}

/// Filtering keeps only members, and none twice.
pub proof fn lemma_filter_members(s: Seq<u64>, p: spec_fn(u64) -> bool)
    ensures
        forall|x: u64| #[trigger] s.filter(p).contains(x) <==> s.contains(x) && p(x),
        s.no_duplicates() ==> s.filter(p).no_duplicates(),
    decreases s.len(),
{
    reveal(Seq::filter);
    if s.len() > 0 {
        let rest = s.drop_last();
        lemma_filter_members(rest, p);
        assert forall|x: u64| #[trigger] s.filter(p).contains(x) <==> s.contains(x) && p(x) by {
            assert(s =~= rest.push(s.last()));
            if s.contains(x) && p(x) {
                let i = choose|i: int| 0 <= i < s.len() && s[i] == x;
                if i < rest.len() {
                    assert(rest[i] == x);
                    assert(rest.filter(p).contains(x));
                    let k = choose|k: int| 0 <= k < rest.filter(p).len() && rest.filter(p)[k] == x;
                    assert(s.filter(p)[k] == x);
                } else {
                    assert(s.filter(p).last() == x);
                }
            }
            if s.filter(p).contains(x) {
                let k = choose|k: int| 0 <= k < s.filter(p).len() && s.filter(p)[k] == x;
                if k < rest.filter(p).len() {
                    assert(rest.filter(p).contains(x));
                    let i = choose|i: int| 0 <= i < rest.len() && rest[i] == x;
                    assert(s[i] == x);
                } else {
                    assert(x == s.last());
                }
            }
        }
        if s.no_duplicates() {
            assert(rest.no_duplicates());
            let f = rest.filter(p);
            if p(s.last()) {
                assert(!f.contains(s.last())) by {
                    if f.contains(s.last()) {
                        assert(rest.contains(s.last()));
                        let i = choose|i: int| 0 <= i < rest.len() && rest[i] == s.last();
                        assert(s[i] == s[s.len() - 1]);
                    }
                }
                assert(f.push(s.last()).no_duplicates()) by {
                    assert forall|i: int, j: int|
                        0 <= i < f.len() + 1 && 0 <= j < f.len() + 1 && i != j implies f.push(
                        s.last(),
                    )[i] != f.push(s.last())[j] by {
                        if i == f.len() {
                            assert(f.contains(f[j]));
                        } else if j == f.len() {
                            assert(f.contains(f[i]));
                        }
                    }
                }
            }
        }
    }
}

/// Removing one member adds none, and of a list without duplicates it removes
/// just that one.
pub proof fn lemma_removed(s: Seq<u64>, i: int)
    requires
        0 <= i < s.len(),
    ensures
        forall|x: u64| #[trigger] s.remove(i).contains(x) ==> s.contains(x),
        forall|x: u64| #[trigger] s.contains(x) && x != s[i] ==> s.remove(i).contains(x),
        s.no_duplicates() ==> s.remove(i).no_duplicates() && !s.remove(i).contains(s[i]),
{
    let t = s.remove(i);
    assert forall|x: u64| #[trigger] t.contains(x) implies s.contains(x) by {
        let k = choose|k: int| 0 <= k < t.len() && t[k] == x;
        if k < i {
            assert(s[k] == x);
        } else {
            assert(s[k + 1] == x);
        }
    }
    assert forall|x: u64| #[trigger] s.contains(x) && x != s[i] implies t.contains(x) by {
        let k = choose|k: int| 0 <= k < s.len() && s[k] == x;
        if k < i {
            assert(t[k] == x);
        } else {
            assert(t[k - 1] == x);
        }
    }
}

/// Adding a member at the end.
pub proof fn lemma_pushed(s: Seq<u64>, id: u64)
    ensures
        s.no_duplicates() && !s.contains(id) ==> s.push(id).no_duplicates(),
        forall|x: u64| #[trigger] s.push(id).contains(x) <==> s.contains(x) || x == id,
{
    let t = s.push(id);
    assert forall|x: u64| #[trigger] t.contains(x) <==> s.contains(x) || x == id by {
        if s.contains(x) {
            let k = choose|k: int| 0 <= k < s.len() && s[k] == x;
            assert(t[k] == x);
        }
        assert(t[s.len() as int] == id);
    }
    if s.no_duplicates() && !s.contains(id) {
        assert forall|i: int, j: int| 0 <= i < t.len() && 0 <= j < t.len() && i != j implies t[i]
            != t[j] by {
            if i == s.len() {
                assert(s.contains(s[j]));
            } else if j == s.len() {
                assert(s.contains(s[i]));
            }
        }
    }
}

/// Adding a member at the front.
pub proof fn lemma_inserted(s: Seq<u64>, id: u64)
    ensures
        s.no_duplicates() && !s.contains(id) ==> s.insert(0, id).no_duplicates(),
        forall|x: u64| #[trigger] s.insert(0, id).contains(x) <==> s.contains(x) || x == id,
{
    let t = s.insert(0, id);
    assert forall|x: u64| #[trigger] t.contains(x) <==> s.contains(x) || x == id by {
        if s.contains(x) {
            let k = choose|k: int| 0 <= k < s.len() && s[k] == x;
            assert(t[k + 1] == x);
        }
        assert(t[0] == id);
    }
    if s.no_duplicates() && !s.contains(id) {
        assert forall|i: int, j: int| 0 <= i < t.len() && 0 <= j < t.len() && i != j implies t[i]
            != t[j] by {
            if i == 0 {
                assert(s.contains(s[j - 1]));
            } else if j == 0 {
                assert(s.contains(s[i - 1]));
            } else {
                assert(t[i] == s[i - 1]);
                assert(t[j] == s[j - 1]);
            }
        }
    }
}

/// A reversed list has the same members.
pub proof fn lemma_reversed(s: Seq<u64>)
    ensures
        s.no_duplicates() ==> s.reverse().no_duplicates(),
        forall|x: u64| #[trigger] s.reverse().contains(x) <==> s.contains(x),
{
    let t = s.reverse();
    assert forall|x: u64| #[trigger] t.contains(x) <==> s.contains(x) by {
        if s.contains(x) {
            let k = choose|k: int| 0 <= k < s.len() && s[k] == x;
            assert(t[s.len() - 1 - k] == x);
        }
        if t.contains(x) {
            let k = choose|k: int| 0 <= k < t.len() && t[k] == x;
            assert(s[s.len() - 1 - k] == x);
        }
    }
}

/// Filtering keeps what is left in its order.
pub proof fn lemma_filter_order(s: Seq<u64>, p: spec_fn(u64) -> bool, a: int, b: int)
    requires
        0 <= a < b < s.filter(p).len(),
    ensures
        exists|i: int, j: int|
            0 <= i < j < s.len() && #[trigger] s[i] == s.filter(p)[a] && #[trigger] s[j]
                == s.filter(p)[b],
    decreases s.len(),
{
    reveal(Seq::filter);
    if s.len() > 0 {
        let rest = s.drop_last();
        let f = rest.filter(p);
        if b < f.len() {
            lemma_filter_order(rest, p, a, b);
            let (i, j) = choose|i: int, j: int|
                0 <= i < j < rest.len() && #[trigger] rest[i] == f[a] && #[trigger] rest[j] == f[b];
            assert(s[i] == s.filter(p)[a] && s[j] == s.filter(p)[b]);
        } else {
            lemma_filter_members(rest, p);
            assert(f.contains(f[a]));
            let i = choose|i: int| 0 <= i < rest.len() && rest[i] == f[a];
            assert(s[i] == s.filter(p)[a] && s[s.len() - 1] == s.filter(p)[b]);
        }
    }
}

/// What satisfies `p` throughout is not changed by filtering, and of what never
/// does nothing is left.
pub proof fn lemma_filter_all_or_none(s: Seq<u64>, p: spec_fn(u64) -> bool)
    ensures
        (forall|i: int| 0 <= i < s.len() ==> p(#[trigger] s[i])) ==> s.filter(p) == s,
        (forall|i: int| 0 <= i < s.len() ==> !p(#[trigger] s[i])) ==> s.filter(p).len() == 0,
        s.filter(p).len() <= s.len(),
    decreases s.len(),
{
    reveal(Seq::filter);
    if s.len() > 0 {
        let rest = s.drop_last();
        lemma_filter_all_or_none(rest, p);
        assert(forall|i: int| 0 <= i < rest.len() ==> rest[i] == s[i]);
        if forall|i: int| 0 <= i < s.len() ==> p(#[trigger] s[i]) {
            assert forall|i: int| 0 <= i < rest.len() implies p(#[trigger] rest[i]) by {
                assert(p(s[i]));
            }
            assert(p(s[s.len() - 1]));
            assert(s.filter(p) =~= s);
        }
        if forall|i: int| 0 <= i < s.len() ==> !p(#[trigger] s[i]) {
            assert forall|i: int| 0 <= i < rest.len() implies !p(#[trigger] rest[i]) by {
                assert(!p(s[i]));
            }
            assert(!p(s[s.len() - 1]));
        }
    }
}

/// A position is that of the first occurrence, and there is one where something occurs.
pub proof fn law_first_occurrence_is_found(s: Vec<u64>, x: u64, r: Option<usize>, j: int)
    requires
        call_ensures(position, (&s, x), r),
    ensures
        r matches Some(i) ==> i < s@.len() && s@[i as int] == x,
        0 <= j < s@.len() && s@[j] == x ==> (r matches Some(i) && i <= j),
{
    if 0 <= j < s@.len() && s@[j] == x && r is Some && j < r->0 {
        assert(s@.take(r->0 as int)[j] == x);
    }
}

/// What is removed is gone; what else was there stays, in its order; and where there
/// was nothing to remove nothing changes.
pub proof fn law_every_occurrence_is_removed(s: &mut Vec<u64>, x: u64, y: u64, a: int, b: int)
    requires
        call_ensures(remove_all, (s, x), ()),
    ensures
        !final(s)@.contains(x),
        y != x ==> (final(s)@.contains(y) <==> old(s)@.contains(y)),
        !old(s)@.contains(x) ==> final(s)@ == old(s)@,
        0 <= a < b < final(s)@.len() ==> exists|i: int, j: int|
            0 <= i < j < old(s)@.len() && #[trigger] old(s)@[i] == final(s)@[a]
                && #[trigger] old(s)@[j] == final(s)@[b],
{
    let p = other_than(x);
    lemma_filter_members(old(s)@, p);
    lemma_filter_all_or_none(old(s)@, p);
    if !old(s)@.contains(x) {
        assert forall|i: int| 0 <= i < old(s)@.len() implies p(#[trigger] old(s)@[i]) by {
            assert(old(s)@.contains(old(s)@[i]));
        }
    }
    if 0 <= a < b < final(s)@.len() {
        lemma_filter_order(old(s)@, p, a, b);
    }
}

} // verus!
