//! Rows that bear a date, newest first.
use vstd::prelude::*;

use crate::time::Timestamp;

verus! {

/// A row that bears a date.
pub trait Dated {
    /// The date of the row.
    spec fn moment(&self) -> Timestamp;

    /// The date of the row.
    fn dated(&self) -> (r: Timestamp)
        ensures
            r == self.moment(),
    ;
}

/// No row stands in front of a newer one.
pub open spec fn is_newest_first<T: Dated>(rows: Seq<T>) -> bool {
    forall|i: int, j: int|
        0 <= i < j < rows.len() ==> !(#[trigger] rows[j]).moment().after(
            (#[trigger] rows[i]).moment(),
        )
}

/// How many of the rows, which stand newest first, come in front of a further one: those that are
/// no older.
pub open spec fn rows_in_front<T: Dated>(rows: Seq<T>, moment: Timestamp) -> int
    decreases rows.len(),
{
    if rows.len() > 0 && moment.after(rows.last().moment()) {
        rows_in_front(rows.drop_last(), moment)
    } else {
        rows.len() as int
    }
}

/// The rows, newest first; rows of one date stay in the order in which they are given.
pub open spec fn newest_first<T: Dated>(rows: Seq<T>) -> Seq<T>
    decreases rows.len(),
{
    if rows.len() == 0 {
        rows
    } else {
        let others = newest_first(rows.drop_last());
        others.insert(rows_in_front(others, rows.last().moment()), rows.last())
    }
}

proof fn lemma_rows_in_front<T: Dated>(rows: Seq<T>, moment: Timestamp)
    ensures
        0 <= rows_in_front(rows, moment) <= rows.len(),
        forall|i: int|
            rows_in_front(rows, moment) <= i < rows.len() ==> moment.after(
                (#[trigger] rows[i]).moment(),
            ),
        rows_in_front(rows, moment) > 0 ==> !moment.after(
            rows[rows_in_front(rows, moment) - 1].moment(),
        ),
    decreases rows.len(),
{
    if rows.len() > 0 && moment.after(rows.last().moment()) {
        lemma_rows_in_front(rows.drop_last(), moment);
        assert forall|i: int| rows_in_front(rows, moment) <= i < rows.len() implies moment.after(
            (#[trigger] rows[i]).moment(),
        ) by {
            if i < rows.len() - 1 {
                assert(rows.drop_last()[i] == rows[i]);
            }
        }
    }
}

/// Putting the rows newest first loses none and adds none, and no row then stands in front of a
/// newer one.
pub proof fn law_newest_first_orders_the_rows<T: Dated>(rows: Seq<T>)
    ensures
        newest_first(rows).len() == rows.len(),
        newest_first(rows).to_multiset() == rows.to_multiset(),
        is_newest_first(newest_first(rows)),
    decreases rows.len(),
{
    if rows.len() > 0 {
        let last = rows.last();
        let others = newest_first(rows.drop_last());
        let at = rows_in_front(others, last.moment());
        let all = others.insert(at, last);
        law_newest_first_orders_the_rows(rows.drop_last());
        lemma_rows_in_front(others, last.moment());
        broadcast use vstd::seq_lib::group_to_multiset_ensures;

        assert(rows.drop_last().push(last) =~= rows);
        assert(all.remove(at) =~= others);
        assert(all[at] == last);
        assert(all.to_multiset().contains(last));
        assert(all.to_multiset() =~= others.to_multiset().insert(last));
        assert forall|i: int, j: int| 0 <= i < j < all.len() implies !(
        #[trigger] all[j]).moment().after((#[trigger] all[i]).moment()) by {
            if i < at && j == at {
                assert(all[i] == others[i]);
                assert(i < at - 1 ==> !others[at - 1].moment().after(others[i].moment()));
            } else {
                let from = if i < at {
                    i
                } else {
                    i - 1
                };
                let to = if j < at {
                    j
                } else {
                    j - 1
                };
                assert(i != at ==> all[i] == others[from]);
                assert(all[j] == others[to]);
            }
        }
    }
}

/// Puts the rows newest first.
pub fn put_newest_first<T: Dated>(rows: Vec<T>) -> (r: Vec<T>)
    ensures
        r@ == newest_first(rows@),
{
    let ghost all = rows@;
    let mut r: Vec<T> = Vec::new();
    for row in it: rows.into_iter()
        invariant
            it.seq() == all,
            r@ == newest_first(all.take(it.index() as int)),
    {
        let moment = row.dated();
        let mut at: usize = r.len();
        assert(r@.take(at as int) =~= r@);
        while at > 0 && moment.is_after(&r[at - 1].dated())
            invariant
                at <= r.len(),
                rows_in_front(r@.take(at as int), moment) == rows_in_front(r@, moment),
            ensures
                at == rows_in_front(r@, moment),
                at <= r.len(),
            decreases at,
        {
            assert(r@.take(at as int).drop_last() =~= r@.take(at - 1));
            at -= 1;
        }
        r.insert(at, row);
        proof {
            let now = all.take(it.index() + 1);
            assert(now.drop_last() =~= all.take(it.index() as int));
            assert(now.last() == row);
        }
    }
    assert(all.take(all.len() as int) =~= all);
    r
}

/// The newest of the rows, and of several the one that is given first.
pub open spec fn newest<T: Dated>(rows: Seq<T>) -> Option<T> {
    if rows.len() == 0 {
        None
    } else {
        Some(newest_first(rows)[0])
    }
}

/// Picks the newest of the rows, and of several the one that is given first.
pub fn pick_newest<T: Dated>(rows: Vec<T>) -> (r: Option<T>)
    ensures
        r == newest(rows@),
{
    proof {
        law_newest_first_orders_the_rows(rows@);
    }
    let mut ordered = put_newest_first(rows);
    if ordered.len() == 0 {
        None
    } else {
        Some(ordered.remove(0))
    }
}

} // verus!
