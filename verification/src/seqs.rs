//! Facts about sequences that the other modules share.
use vstd::prelude::*;

verus! {

/// What a filtered and mapped sequence holds is what the function gives on some element.
pub proof fn lemma_filter_map_contains<A, B>(s: Seq<A>, f: spec_fn(A) -> Option<B>, b: B)
    ensures
        s.filter_map(f).contains(b) <==> (exists|i: int|
            0 <= i < s.len() && #[trigger] f(s[i]) == Some(b)),
    decreases s.len(),
{
    if s.len() > 0 {
        let rest = s.drop_last();
        lemma_filter_map_contains(rest, f, b);
        let before = rest.filter_map(f);
        let after = s.filter_map(f);
        assert(forall|i: int| 0 <= i < rest.len() ==> #[trigger] f(rest[i]) == f(s[i]));
        match f(s.last()) {
            Some(last) => {
                assert(after =~= before.push(last));
                if after.contains(b) {
                    let k = choose|k: int| 0 <= k < after.len() && after[k] == b;
                    if k < before.len() {
                        assert(before[k] == b);
                        let i = choose|i: int| 0 <= i < rest.len() && #[trigger] f(rest[i]) == Some(b);
                        assert(f(s[i]) == Some(b));
                    } else {
                        assert(f(s[s.len() - 1]) == Some(b));
                    }
                }
                if exists|i: int| 0 <= i < s.len() && #[trigger] f(s[i]) == Some(b) {
                    let i = choose|i: int| 0 <= i < s.len() && #[trigger] f(s[i]) == Some(b);
                    if i < rest.len() {
                        assert(f(rest[i]) == Some(b));
                        let k = choose|k: int| 0 <= k < before.len() && before[k] == b;
                        assert(after[k] == b);
                    } else {
                        assert(after[before.len() as int] == b);
                    }
                }
            },
            None => {
                assert(after =~= before);
                if before.contains(b) {
                    let i = choose|i: int| 0 <= i < rest.len() && #[trigger] f(rest[i]) == Some(b);
                    assert(f(s[i]) == Some(b));
                }
                if exists|i: int| 0 <= i < s.len() && #[trigger] f(s[i]) == Some(b) {
                    let i = choose|i: int| 0 <= i < s.len() && #[trigger] f(s[i]) == Some(b);
                    assert(f(rest[i]) == Some(b));
                }
            },
        }
    }
}

/// One list is drawn from another: it holds something for exactly the items that are taken, once
/// for each, in their order. `at` are the places of those items.
pub open spec fn drawn<A, B>(
    from: Seq<A>,
    to: Seq<B>,
    at: Seq<int>,
    takes: spec_fn(A) -> bool,
    gives: spec_fn(A, B) -> bool,
) -> bool {
    &&& at.len() == to.len()
    &&& forall|k: int| 0 <= k < at.len() ==> 0 <= #[trigger] at[k] < from.len()
    &&& forall|k: int, l: int| 0 <= k < l < at.len() ==> #[trigger] at[k] < #[trigger] at[l]
    &&& forall|k: int|
        0 <= k < at.len() ==> takes(from[#[trigger] at[k]]) && gives(from[at[k]], to[k])
    &&& forall|i: int| 0 <= i < from.len() && takes(#[trigger] from[i]) ==> at.contains(i)
}

/// One list is drawn from another: it holds something for exactly the items that are taken, once
/// for each, in their order.
pub open spec fn drawn_from<A, B>(
    from: Seq<A>,
    to: Seq<B>,
    takes: spec_fn(A) -> bool,
    gives: spec_fn(A, B) -> bool,
) -> bool {
    exists|at: Seq<int>| #[trigger] drawn(from, to, at, takes, gives)
}

/// A filtered and mapped sequence is drawn from the one it comes from.
pub proof fn lemma_filter_map_is_drawn<A, B>(
    s: Seq<A>,
    f: spec_fn(A) -> Option<B>,
    takes: spec_fn(A) -> bool,
    gives: spec_fn(A, B) -> bool,
) -> (at: Seq<int>)
    requires
        forall|i: int|
            #![trigger s[i]]
            0 <= i < s.len() ==> (takes(s[i]) <==> f(s[i]) is Some) && (f(s[i]) matches Some(b)
                ==> gives(s[i], b)),
    ensures
        drawn(s, s.filter_map(f), at, takes, gives),
        drawn_from(s, s.filter_map(f), takes, gives),
    decreases s.len(),
{
    if s.len() == 0 {
        Seq::empty()
    } else {
        let rest = s.drop_last();
        let n = s.len() - 1;
        assert forall|i: int|
            #![trigger rest[i]]
            0 <= i < rest.len() implies (takes(rest[i]) <==> f(rest[i]) is Some) && (f(
            rest[i],
        ) matches Some(b) ==> gives(rest[i], b)) by {
            assert(rest[i] == s[i]);
        }
        let before = lemma_filter_map_is_drawn(rest, f, takes, gives);
        let to = rest.filter_map(f);
        assert(s[n] == s.last());
        match f(s.last()) {
            Some(b) => {
                let at = before.push(n);
                assert(s.filter_map(f) =~= to.push(b));
                assert forall|k: int| 0 <= k < at.len() implies takes(s[#[trigger] at[k]])
                    && gives(s[at[k]], s.filter_map(f)[k]) by {
                    if k < n && k < before.len() {
                        assert(at[k] == before[k]);
                        assert(rest[before[k]] == s[at[k]]);
                    }
                }
                assert forall|i: int| 0 <= i < s.len() && takes(#[trigger] s[i]) implies at.contains(
                    i,
                ) by {
                    if i < n {
                        assert(takes(rest[i]));
                        let k = choose|k: int| 0 <= k < before.len() && before[k] == i;
                        assert(at[k] == i);
                    } else {
                        assert(at[before.len() as int] == i);
                    }
                }
                at
            },
            None => {
                assert(s.filter_map(f) =~= to);
                assert forall|k: int| 0 <= k < before.len() implies takes(s[#[trigger] before[k]])
                    && gives(s[before[k]], s.filter_map(f)[k]) by {
                    assert(rest[before[k]] == s[before[k]]);
                }
                assert forall|i: int| 0 <= i < s.len() && takes(#[trigger] s[i]) implies
                    before.contains(i) by {
                    if i < n {
                        assert(takes(rest[i]));
                    }
                }
                before
            },
        }
    }
}

/// What is drawn from two lists at corresponding places comes from corresponding places, where
/// each item of the one list is taken exactly where its counterpart in the other is.
pub proof fn lemma_drawn_from_the_same_places<A, B, C, D>(
    first: Seq<A>,
    first_to: Seq<B>,
    first_at: Seq<int>,
    first_takes: spec_fn(A) -> bool,
    first_gives: spec_fn(A, B) -> bool,
    second: Seq<C>,
    second_to: Seq<D>,
    second_at: Seq<int>,
    second_takes: spec_fn(C) -> bool,
    second_gives: spec_fn(C, D) -> bool,
)
    requires
        first.len() == second.len(),
        forall|i: int|
            #![trigger first[i]]
            #![trigger second[i]]
            0 <= i < first.len() ==> (first_takes(first[i]) <==> second_takes(second[i])),
        drawn(first, first_to, first_at, first_takes, first_gives),
        drawn(second, second_to, second_at, second_takes, second_gives),
    ensures
        first_at == second_at,
{
    assert forall|k: int| 0 <= k < first_at.len() implies second_at.contains(
        #[trigger] first_at[k],
    ) by {
        assert(first_takes(first[first_at[k]]));
        assert(second_takes(second[first_at[k]]));
    }
    assert forall|k: int| 0 <= k < second_at.len() implies first_at.contains(
        #[trigger] second_at[k],
    ) by {
        assert(second_takes(second[second_at[k]]));
        assert(first_takes(first[second_at[k]]));
    }
    lemma_increasing_lists_agree(first_at, second_at);
}

proof fn lemma_increasing_lists_agree(a: Seq<int>, b: Seq<int>)
    requires
        forall|k: int, l: int| 0 <= k < l < a.len() ==> #[trigger] a[k] < #[trigger] a[l],
        forall|k: int, l: int| 0 <= k < l < b.len() ==> #[trigger] b[k] < #[trigger] b[l],
        forall|k: int| 0 <= k < a.len() ==> b.contains(#[trigger] a[k]),
        forall|k: int| 0 <= k < b.len() ==> a.contains(#[trigger] b[k]),
    ensures
        a == b,
    decreases a.len(),
{
    if a.len() == 0 {
        if b.len() > 0 {
            assert(a.contains(b[0]));
        }
        assert(a =~= b);
    } else {
        assert(b.contains(a[0]));
        let x = a.last();
        let y = b.last();
        assert(b.contains(a[a.len() - 1]));
        assert(a.contains(b[b.len() - 1]));
        let i = choose|i: int| 0 <= i < b.len() && b[i] == x;
        let j = choose|j: int| 0 <= j < a.len() && a[j] == y;
        assert(x <= y) by {
            if i < b.len() - 1 {
                assert(b[i] < b[b.len() - 1]);
            }
        }
        assert(y <= x) by {
            if j < a.len() - 1 {
                assert(a[j] < a[a.len() - 1]);
            }
        }
        let c = a.drop_last();
        let d = b.drop_last();
        assert forall|k: int| 0 <= k < c.len() implies d.contains(#[trigger] c[k]) by {
            assert(b.contains(a[k]));
            let l = choose|l: int| 0 <= l < b.len() && b[l] == a[k];
            assert(a[k] < a[a.len() - 1]);
            assert(d[l] == c[k]);
        }
        assert forall|k: int| 0 <= k < d.len() implies c.contains(#[trigger] d[k]) by {
            assert(a.contains(b[k]));
            let l = choose|l: int| 0 <= l < a.len() && a[l] == b[k];
            assert(b[k] < b[b.len() - 1]);
            assert(c[l] == d[k]);
        }
        lemma_increasing_lists_agree(c, d);
        assert(a =~= c.push(x));
        assert(b =~= d.push(y));
    }
}

} // verus!
