//! Rows that bear a name, in the order of their names.
use vstd::prelude::*;

use crate::text::to_chars;

verus! {

/// One text comes before another one: at the first place where they differ it has the lesser
/// character, or it ends there.
pub open spec fn text_before(a: Seq<char>, b: Seq<char>) -> bool
    decreases a.len(),
{
    if b.len() == 0 {
        false
    } else if a.len() == 0 {
        true
    } else if a[0] != b[0] {
        a[0] < b[0]
    } else {
        text_before(a.skip(1), b.skip(1))
    }
}

/// Whether one text comes before another one.
pub fn str_before(a: &str, b: &str) -> (r: bool)
    ensures
        r == text_before(a@, b@),
{
    let x = to_chars(a);
    let y = to_chars(b);
    let mut i: usize = 0;
    assert(x@.skip(0) =~= x@);
    assert(y@.skip(0) =~= y@);
    while i < x.len() && i < y.len()
        invariant
            x@ == a@,
            y@ == b@,
            i <= x.len(),
            i <= y.len(),
            text_before(a@, b@) == text_before(x@.skip(i as int), y@.skip(i as int)),
        decreases x.len() - i,
    {
        assert(x@.skip(i as int)[0] == x@[i as int]);
        assert(y@.skip(i as int)[0] == y@[i as int]);
        if x[i] != y[i] {
            return x[i] < y[i];
        }
        assert(x@.skip(i as int).skip(1) =~= x@.skip(i + 1));
        assert(y@.skip(i as int).skip(1) =~= y@.skip(i + 1));
        i += 1;
    }
    i < y.len()
}

/// Of two texts at most one comes before the other.
proof fn lemma_before_is_one_way(a: Seq<char>, b: Seq<char>)
    ensures
        !(text_before(a, b) && text_before(b, a)),
    decreases a.len(),
{
    if a.len() > 0 && b.len() > 0 && a[0] == b[0] {
        lemma_before_is_one_way(a.skip(1), b.skip(1));
    }
}

/// What comes before a text comes before all that do not come before that text.
proof fn lemma_before_carries_on(a: Seq<char>, b: Seq<char>, c: Seq<char>)
    requires
        text_before(a, b),
        !text_before(c, b),
    ensures
        text_before(a, c),
    decreases a.len(),
{
    if a.len() > 0 && c.len() > 0 && a[0] == b[0] && b[0] == c[0] {
        lemma_before_carries_on(a.skip(1), b.skip(1), c.skip(1));
    }
}

/// A row that bears a name.
pub trait Named {
    /// The name of the row.
    spec fn title(&self) -> Seq<char>;

    /// The name of the row.
    fn named(&self) -> (r: &str)
        ensures
            r@ == self.title(),
    ;
}

/// No row stands behind one whose name comes later.
pub open spec fn is_by_name<T: Named>(rows: Seq<T>) -> bool {
    forall|i: int, j: int|
        0 <= i < j < rows.len() ==> !text_before(
            (#[trigger] rows[j]).title(),
            (#[trigger] rows[i]).title(),
        )
}

/// How many of the rows, which stand in the order of their names, come in front of a further one:
/// those whose names do not come later.
pub open spec fn names_in_front<T: Named>(rows: Seq<T>, title: Seq<char>) -> int
    decreases rows.len(),
{
    if rows.len() > 0 && text_before(title, rows.last().title()) {
        names_in_front(rows.drop_last(), title)
    } else {
        rows.len() as int
    }
}

/// The rows in the order of their names; rows of one name stay in the order in which they are
/// given.
pub open spec fn by_name<T: Named>(rows: Seq<T>) -> Seq<T>
    decreases rows.len(),
{
    if rows.len() == 0 {
        rows
    } else {
        let others = by_name(rows.drop_last());
        others.insert(names_in_front(others, rows.last().title()), rows.last())
    }
}

proof fn lemma_names_in_front<T: Named>(rows: Seq<T>, title: Seq<char>)
    ensures
        0 <= names_in_front(rows, title) <= rows.len(),
        forall|i: int|
            names_in_front(rows, title) <= i < rows.len() ==> text_before(
                title,
                (#[trigger] rows[i]).title(),
            ),
        names_in_front(rows, title) > 0 ==> !text_before(
            title,
            rows[names_in_front(rows, title) - 1].title(),
        ),
    decreases rows.len(),
{
    if rows.len() > 0 && text_before(title, rows.last().title()) {
        lemma_names_in_front(rows.drop_last(), title);
        assert forall|i: int| names_in_front(rows, title) <= i < rows.len() implies text_before(
            title,
            (#[trigger] rows[i]).title(),
        ) by {
            if i < rows.len() - 1 {
                assert(rows.drop_last()[i] == rows[i]);
            }
        }
    }
}

/// Putting the rows in the order of their names loses none and adds none, and no row then stands
/// behind one whose name comes later.
pub proof fn law_by_name_orders_the_rows<T: Named>(rows: Seq<T>)
    ensures
        by_name(rows).len() == rows.len(),
        by_name(rows).to_multiset() == rows.to_multiset(),
        is_by_name(by_name(rows)),
    decreases rows.len(),
{
    if rows.len() > 0 {
        let last = rows.last();
        let others = by_name(rows.drop_last());
        let at = names_in_front(others, last.title());
        let all = others.insert(at, last);
        law_by_name_orders_the_rows(rows.drop_last());
        lemma_names_in_front(others, last.title());
        broadcast use vstd::seq_lib::group_to_multiset_ensures;

        assert(rows.drop_last().push(last) =~= rows);
        assert(all.remove(at) =~= others);
        assert(all[at] == last);
        assert(all.to_multiset().contains(last));
        assert(all.to_multiset() =~= others.to_multiset().insert(last));
        assert forall|i: int, j: int| 0 <= i < j < all.len() implies !text_before(
            (#[trigger] all[j]).title(),
            (#[trigger] all[i]).title(),
        ) by {
            if j == at {
                assert(all[i] == others[i]);
                if text_before(last.title(), others[i].title()) && i < at - 1 {
                    assert(!text_before(others[at - 1].title(), others[i].title()));
                    lemma_before_carries_on(
                        last.title(),
                        others[i].title(),
                        others[at - 1].title(),
                    );
                }
            } else if i == at {
                assert(all[j] == others[j - 1]);
                lemma_before_is_one_way(last.title(), others[j - 1].title());
            } else {
                let from = if i < at {
                    i
                } else {
                    i - 1
                };
                let to = if j < at {
                    j
                } else {
                    j - 1
                };
                assert(all[i] == others[from]);
                assert(all[j] == others[to]);
            }
        }
    }
}

/// Puts the rows in the order of their names.
pub fn put_by_name<T: Named>(rows: Vec<T>) -> (r: Vec<T>)
    ensures
        r@ == by_name(rows@),
{
    let ghost all = rows@;
    let mut r: Vec<T> = Vec::new();
    for row in it: rows.into_iter()
        invariant
            it.seq() == all,
            r@ == by_name(all.take(it.index() as int)),
    {
        let mut at: usize = r.len();
        assert(r@.take(at as int) =~= r@);
        while at > 0 && str_before(row.named(), r[at - 1].named())
            invariant
                at <= r.len(),
                names_in_front(r@.take(at as int), row.title()) == names_in_front(
                    r@,
                    row.title(),
                ),
            ensures
                at == names_in_front(r@, row.title()),
                at <= r.len(),
            decreases at,
        {
            assert(r@.take(at as int).drop_last() =~= r@.take(at - 1));
            at -= 1;
        }
        r.insert(at, row);
        proof {
            let now = all.take(it.index() + 1);
            assert(now.drop_last() =~= all.take(it.index() as int));
            assert(now.last() == row);
        }
    }
    assert(all.take(all.len() as int) =~= all);
    r
}

/// One text comes before another exactly where they agree up to some place, and there the one ends
/// or has the lesser character.
pub proof fn law_the_first_difference_decides(a: &str, b: &str, r: bool)
    requires
        call_ensures(str_before, (a, b), r),
    ensures
        r <==> exists|k: int| #[trigger] differs_first(a@, b@, k),
{
    lemma_first_difference(a@, b@);
}

/// The texts agree up to a place, and there the first one ends or has the lesser character.
pub open spec fn differs_first(a: Seq<char>, b: Seq<char>, k: int) -> bool {
    &&& 0 <= k <= a.len()
    &&& k < b.len()
    &&& forall|i: int| 0 <= i < k ==> a[i] == #[trigger] b[i]
    &&& k == a.len() || a[k] < b[k]
}

proof fn lemma_first_difference(a: Seq<char>, b: Seq<char>)
    ensures
        text_before(a, b) <==> exists|k: int| #[trigger] differs_first(a, b, k),
    decreases a.len(),
{
    if b.len() > 0 && a.len() > 0 && a[0] == b[0] {
        let c = a.skip(1);
        let d = b.skip(1);
        lemma_first_difference(c, d);
        if text_before(c, d) {
            let k = choose|k: int| #[trigger] differs_first(c, d, k);
            assert forall|i: int| 0 <= i < k + 1 implies a[i] == #[trigger] b[i] by {
                if i > 0 {
                    assert(c[i - 1] == d[i - 1]);
                }
            }
            assert(differs_first(a, b, k + 1));
        }
        if exists|k: int| #[trigger] differs_first(a, b, k) {
            let k = choose|k: int| #[trigger] differs_first(a, b, k);
            assert forall|i: int| 0 <= i < k - 1 implies c[i] == #[trigger] d[i] by {
                assert(a[i + 1] == b[i + 1]);
            }
            assert(differs_first(c, d, k - 1));
        }
    } else {
        if text_before(a, b) {
            assert(differs_first(a, b, 0));
        }
        if exists|k: int| #[trigger] differs_first(a, b, k) {
            let k = choose|k: int| #[trigger] differs_first(a, b, k);
            if k > 0 {
                assert(a[0] == b[0]);
            }
        }
    }
}

} // verus!
