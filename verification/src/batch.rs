//! Writing many rows at once: how they are split into batches, and the statements that write
//! them.
use vstd::prelude::*;

use crate::text::{join, push_decimal};

verus! {

use crate::text::{decimal, joined, views};

/// How many pages are inserted with one statement.
pub const PAGE_BATCH: usize = 200;

/// How many videos have their download flag set with one statement.
pub const FLAG_BATCH: usize = 500;

/// A sequence cut into pieces of a certain size; the last piece may be shorter.
pub open spec fn chunks<T>(items: Seq<T>, size: nat) -> Seq<Seq<T>>
    decreases items.len(),
{
    if size == 0 || items.len() == 0 {
        Seq::empty()
    } else if items.len() <= size {
        seq![items]
    } else {
        seq![items.take(size as int)] + chunks(items.skip(size as int), size)
    }
}

/// What each of the vectors holds.
pub open spec fn contents<T>(parts: Seq<Vec<T>>) -> Seq<Seq<T>> {
    Seq::new(parts.len(), |i: int| parts[i]@)
}

/// Cuts a list into pieces of a certain size; the last piece may be shorter.
pub fn chunked<T>(items: Vec<T>, size: usize) -> (r: Vec<Vec<T>>)
    requires
        size > 0,
    ensures
        contents(r@) == chunks(items@, size as nat),
{
    let ghost all = items@;
    let mut items = items;
    let mut r: Vec<Vec<T>> = Vec::new();
    assert(contents(r@) + chunks(items@, size as nat) =~= chunks(all, size as nat));
    while items.len() > 0
        invariant
            size > 0,
            contents(r@) + chunks(items@, size as nat) == chunks(all, size as nat),
        decreases items.len(),
    {
        let ghost whole = items@;
        let ghost before = contents(r@);
        if items.len() <= size {
            r.push(items);
            items = Vec::new();
            proof {
                assert(contents(r@) =~= before.push(whole));
                assert(contents(r@) + chunks(items@, size as nat) =~= before + seq![whole]);
            }
        } else {
            let rest = items.split_off(size);
            r.push(items);
            items = rest;
            proof {
                assert(whole.take(size as int) =~= whole.subrange(0, size as int));
                assert(whole.skip(size as int) =~= items@);
                assert(contents(r@) =~= before.push(whole.take(size as int)));
                assert(contents(r@) + chunks(items@, size as nat) =~= before + (seq![
                    whole.take(size as int),
                ] + chunks(items@, size as nat)));
            }
        }
    }
    assert(contents(r@) + chunks(items@, size as nat) =~= contents(r@));
    r
}

/// The batches in which pages are inserted.
pub fn create_pages<T>(pages: Vec<T>) -> (r: Vec<Vec<T>>)
    ensures
        contents(r@) == chunks(pages@, PAGE_BATCH as nat),
{
    chunked(pages, PAGE_BATCH)
}

/// Cutting a list into pieces loses nothing, adds nothing and keeps the order.
pub proof fn law_chunks_join_to_the_list<T>(items: Seq<T>, size: nat)
    requires
        size > 0,
    ensures
        chunks(items, size).flatten() == items,
    decreases items.len(),
{
    if items.len() == 0 {
        assert(chunks(items, size).flatten() =~= items);
    } else if items.len() <= size {
        chunks(items, size).lemma_flatten_one_element();
    } else {
        let head = items.take(size as int);
        let rest = items.skip(size as int);
        law_chunks_join_to_the_list(rest, size);
        let pieces = chunks(items, size);
        assert(pieces.drop_first() =~= chunks(rest, size));
        assert(pieces.first() == head);
        assert(head + rest =~= items);
    }
}

/// No piece is empty or larger than asked for, and every piece but the last is full.
pub proof fn law_chunks_are_full<T>(items: Seq<T>, size: nat, k: int)
    requires
        size > 0,
        0 <= k < chunks(items, size).len(),
    ensures
        0 < chunks(items, size)[k].len() <= size,
        k < chunks(items, size).len() - 1 ==> chunks(items, size)[k].len() == size,
    decreases items.len(),
{
    if items.len() > size && k > 0 {
        let rest = items.skip(size as int);
        law_chunks_are_full(rest, size, k - 1);
        assert(chunks(items, size)[k] == chunks(rest, size)[k - 1]);
    }
}

/// A video and its download flag, as they stand in a statement.
pub open spec fn flag_text(item: (i32, bool)) -> Seq<char> {
    "("@ + decimal(item.0 as int) + ", "@ + (if item.1 {
        "true"@
    } else {
        "false"@
    }) + ")"@
}

/// Several videos and their download flags, as they stand in a statement.
pub open spec fn flag_texts(items: Seq<(i32, bool)>) -> Seq<Seq<char>> {
    Seq::new(items.len(), |i: int| flag_text(items[i]))
}

/// The statement that sets the download flags of some videos.
pub open spec fn flag_statement(items: Seq<(i32, bool)>) -> Seq<char> {
    "WITH tempdata(id, should_download) AS (VALUES "@ + joined(flag_texts(items), ", "@)
        + ") UPDATE video SET should_download = tempdata.should_download FROM tempdata WHERE video.id = tempdata.id"@
}

fn flag_sql(items: &Vec<(i32, bool)>) -> (r: String)
    ensures
        r@ == flag_statement(items@),
{
    let mut parts: Vec<String> = Vec::new();
    let mut i: usize = 0;
    while i < items.len()
        invariant
            i <= items.len(),
            parts@.len() == i,
            forall|k: int| 0 <= k < i ==> (#[trigger] parts@[k])@ == flag_text(items@[k]),
        decreases items.len() - i,
    {
        let (id, flag) = items[i];
        let mut part = String::new();
        part.append("(");
        push_decimal(&mut part, id as i64);
        part.append(", ");
        if flag {
            part.append("true");
        } else {
            part.append("false");
        }
        part.append(")");
        parts.push(part);
        i += 1;
    }
    assert(views(parts@) =~= flag_texts(items@));
    let mut r = String::new();
    r.append("WITH tempdata(id, should_download) AS (VALUES ");
    r.append(join(&parts, ", ").as_str());
    r.append(
        ") UPDATE video SET should_download = tempdata.should_download FROM tempdata WHERE video.id = tempdata.id",
    );
    r
}

/// The statements that set the download flags of some videos, a batch each.
pub open spec fn flag_statements(items: Seq<(i32, bool)>) -> Seq<Seq<char>> {
    let batches = chunks(items, FLAG_BATCH as nat);
    Seq::new(batches.len(), |i: int| flag_statement(batches[i]))
}

/// The statements that set the download flags which a source's rule gives to its videos, a batch
/// each.
pub fn evaluate_statements(items: Vec<(i32, bool)>) -> (r: Vec<String>)
    ensures
        views(r@) == flag_statements(items@),
{
    let ghost all = items@;
    let batches = chunked(items, FLAG_BATCH);
    let mut r: Vec<String> = Vec::new();
    let mut i: usize = 0;
    while i < batches.len()
        invariant
            i <= batches.len(),
            contents(batches@) == chunks(all, FLAG_BATCH as nat),
            r@.len() == i,
            forall|k: int| 0 <= k < i ==> (#[trigger] r@[k])@ == flag_statement(batches@[k]@),
        decreases batches.len() - i,
    {
        r.push(flag_sql(&batches[i]));
        i += 1;
    }
    assert forall|k: int| 0 <= k < r@.len() implies (#[trigger] r@[k])@ == flag_statement(
        chunks(all, FLAG_BATCH as nat)[k],
    ) by {
        assert(contents(batches@)[k] == batches@[k]@);
    }
    assert(batches@.len() == contents(batches@).len());
    assert(views(r@) =~= flag_statements(all));
    r
}

/// The statements set the flags of these batches of videos, a statement for each batch: none is
/// empty, and none has more than 500 videos.
pub open spec fn are_flag_statements(
    statements: Seq<String>,
    batches: Seq<Seq<(i32, bool)>>,
) -> bool {
    &&& statements.len() == batches.len()
    &&& forall|k: int|
        #![trigger batches[k]]
        0 <= k < batches.len() ==> 0 < batches[k].len() <= 500 && statements[k]@
            == "WITH tempdata(id, should_download) AS (VALUES "@ + joined(
            Seq::new(
                batches[k].len(),
                |i: int|
                    "("@ + decimal(batches[k][i].0 as int) + ", "@ + (if batches[k][i].1 {
                        "true"@
                    } else {
                        "false"@
                    }) + ")"@,
            ),
            ", "@,
        ) + ") UPDATE video SET should_download = tempdata.should_download FROM tempdata WHERE video.id = tempdata.id"@
}

/// The statements for a list of flags set each of them once, in order.
pub proof fn lemma_flag_statements(items: Seq<(i32, bool)>, statements: Seq<String>)
    requires
        views(statements) == flag_statements(items),
    ensures
        exists|batches: Seq<Seq<(i32, bool)>>| #[trigger]
            are_flag_statements(statements, batches) && batches.flatten() == items,
{
    let batches = chunks(items, FLAG_BATCH as nat);
    law_chunks_join_to_the_list(items, FLAG_BATCH as nat);
    assert(views(statements).len() == statements.len());
    assert forall|k: int| #![trigger batches[k]] 0 <= k < batches.len() implies 0
        < batches[k].len() <= 500 && statements[k]@
        == "WITH tempdata(id, should_download) AS (VALUES "@ + joined(
        Seq::new(
            batches[k].len(),
            |i: int|
                "("@ + decimal(batches[k][i].0 as int) + ", "@ + (if batches[k][i].1 {
                    "true"@
                } else {
                    "false"@
                }) + ")"@,
        ),
        ", "@,
    ) + ") UPDATE video SET should_download = tempdata.should_download FROM tempdata WHERE video.id = tempdata.id"@ by {
        law_chunks_are_full(items, FLAG_BATCH as nat, k);
        assert(views(statements)[k] == statements[k]@);
        assert(flag_texts(batches[k]) =~= Seq::new(
            batches[k].len(),
            |i: int|
                "("@ + decimal(batches[k][i].0 as int) + ", "@ + (if batches[k][i].1 {
                    "true"@
                } else {
                    "false"@
                }) + ")"@,
        ));
    }
    assert(are_flag_statements(statements, batches));
}

/// Each flag of a list is set once, in order, at most 500 with one statement.
pub proof fn law_every_flag_is_set_once(items: Vec<(i32, bool)>, statements: Vec<String>)
    requires
        call_ensures(evaluate_statements, (items,), statements),
    ensures
        exists|batches: Seq<Seq<(i32, bool)>>| #[trigger]
            are_flag_statements(statements@, batches) && batches.flatten() == items@,
{
    lemma_flag_statements(items@, statements@);
}

/// The pieces of a list, one after another, are the list; none is empty or longer than asked for,
/// and only the last is shorter.
pub open spec fn are_pieces<T>(pieces: Seq<Vec<T>>, items: Seq<T>, size: int) -> bool {
    &&& Seq::new(pieces.len(), |k: int| pieces[k]@).flatten() == items
    &&& forall|k: int|
        0 <= k < pieces.len() ==> 0 < (#[trigger] pieces[k])@.len() <= size && (k < pieces.len()
            - 1 ==> pieces[k]@.len() == size)
}

/// Pages are inserted 200 at a time, all of them and in order; any list is cut likewise.
pub proof fn law_lists_are_cut_into_full_pieces<T>(
    pages: Vec<T>,
    inserted: Vec<Vec<T>>,
    size: usize,
    pieces: Vec<Vec<T>>,
)
    requires
        size > 0,
        call_ensures(create_pages, (pages,), inserted),
        call_ensures(chunked, (pages, size), pieces),
    ensures
        are_pieces(inserted@, pages@, 200),
        are_pieces(pieces@, pages@, size as int),
{
    lemma_pieces(inserted@, pages@, 200);
    lemma_pieces(pieces@, pages@, size as int);
}

proof fn lemma_pieces<T>(pieces: Seq<Vec<T>>, items: Seq<T>, size: int)
    requires
        size > 0,
        contents(pieces) == chunks(items, size as nat),
    ensures
        are_pieces(pieces, items, size),
{
    law_chunks_join_to_the_list(items, size as nat);
    assert(Seq::new(pieces.len(), |k: int| pieces[k]@) =~= contents(pieces));
    assert forall|k: int| 0 <= k < pieces.len() implies 0 < (#[trigger] pieces[k])@.len() <= size
        && (k < pieces.len() - 1 ==> pieces[k]@.len() == size) by {
        assert(contents(pieces)[k] == pieces[k]@);
        law_chunks_are_full(items, size as nat, k);
    }
}

} // verus!
