//! Writing the details of many videos with one statement.
use vstd::prelude::*;

use crate::text::join;

verus! {

use crate::batch::contents;
use crate::text::{joined, views};

/// How many columns hold a video's details, its id included.
pub const DETAIL_COLUMNS: usize = 21;

/// The columns that hold a video's details; the first one tells which video it is.
pub open spec fn detail_columns() -> Seq<Seq<char>> {
    seq![
        "id"@,
        "collection_id"@,
        "favorite_id"@,
        "watch_later_id"@,
        "submission_id"@,
        "upper_id"@,
        "upper_name"@,
        "upper_face"@,
        "staff"@,
        "name"@,
        "bvid"@,
        "intro"@,
        "cover"@,
        "ctime"@,
        "pubtime"@,
        "favtime"@,
        "download_status"@,
        "valid"@,
        "should_download"@,
        "tags"@,
        "single_page"@,
    ]
}

/// The columns that hold a video's details; the first one tells which video it is.
pub fn list_detail_columns() -> (r: Vec<String>)
    ensures
        views(r@) == detail_columns(),
        r@.len() == DETAIL_COLUMNS,
{
    let mut r: Vec<String> = Vec::new();
    r.push("id".to_string());
    r.push("collection_id".to_string());
    r.push("favorite_id".to_string());
    r.push("watch_later_id".to_string());
    r.push("submission_id".to_string());
    r.push("upper_id".to_string());
    r.push("upper_name".to_string());
    r.push("upper_face".to_string());
    r.push("staff".to_string());
    r.push("name".to_string());
    r.push("bvid".to_string());
    r.push("intro".to_string());
    r.push("cover".to_string());
    r.push("ctime".to_string());
    r.push("pubtime".to_string());
    r.push("favtime".to_string());
    r.push("download_status".to_string());
    r.push("valid".to_string());
    r.push("should_download".to_string());
    r.push("tags".to_string());
    r.push("single_page".to_string());
    assert(views(r@) =~= detail_columns());
    r
}

/// The same text several times.
pub open spec fn copies(text: Seq<char>, count: nat) -> Seq<Seq<char>> {
    Seq::new(count, |i: int| text)
}

/// The placeholders of one video.
pub open spec fn placeholder_row() -> Seq<char> {
    "("@ + joined(copies("?"@, DETAIL_COLUMNS as nat), ", "@) + ")"@
}

/// The placeholders of several videos.
pub open spec fn placeholder_rows(count: nat) -> Seq<char> {
    joined(copies(placeholder_row(), count), ", "@)
}

/// What sets each column but the first to its new value.
pub open spec fn assignments() -> Seq<Seq<char>> {
    let columns = detail_columns().skip(1);
    Seq::new(columns.len(), |i: int| columns[i] + " = tempdata."@ + columns[i])
}

/// The statement that writes the details of some videos.
pub open spec fn detail_statement(count: nat) -> Seq<char> {
    "WITH tempdata("@ + joined(detail_columns(), ", "@) + ") AS (VALUES "@ + placeholder_rows(count)
        + ") UPDATE video SET "@ + joined(assignments(), ", "@)
        + " FROM tempdata WHERE video.id = tempdata.id"@
}

/// The statement that writes the details of some videos, and the values that it takes.
#[derive(Debug)]
pub struct DetailUpdate<V> {
    pub sql: String,
    pub values: Vec<V>,
}

/// All columns of all videos, one after another.
pub open spec fn slots<V>(videos: Seq<Vec<Option<V>>>) -> Seq<Option<V>> {
    contents(videos).flatten()
}

/// The first column that is not set, counting through all videos.
pub open spec fn first_unset<V>(slots: Seq<Option<V>>, at: int) -> bool {
    &&& 0 <= at < slots.len()
    &&& slots[at] is None
    &&& forall|k: int| 0 <= k < at ==> (#[trigger] slots[k]) is Some
}

fn repeated(text: &str, count: usize) -> (r: Vec<String>)
    ensures
        views(r@) == copies(text@, count as nat),
{
    let mut r: Vec<String> = Vec::new();
    let mut i: usize = 0;
    while i < count
        invariant
            i <= count,
            r@.len() == i,
            forall|k: int| 0 <= k < i ==> (#[trigger] r@[k])@ == text@,
        decreases count - i,
    {
        let mut one = String::new();
        one.append(text);
        r.push(one);
        i += 1;
    }
    assert(views(r@) =~= copies(text@, count as nat));
    r
}

fn detail_sql(columns: &Vec<String>, count: usize) -> (r: String)
    requires
        views(columns@) == detail_columns(),
        columns@.len() == DETAIL_COLUMNS,
    ensures
        r@ == detail_statement(count as nat),
{
    let mut row = String::new();
    row.append("(");
    row.append(join(&repeated("?", columns.len()), ", ").as_str());
    row.append(")");
    assert(row@ =~= placeholder_row());
    let mut set: Vec<String> = Vec::new();
    let mut i: usize = 1;
    while i < columns.len()
        invariant
            1 <= i <= columns.len(),
            views(columns@) == detail_columns(),
            columns@.len() == DETAIL_COLUMNS,
            set@.len() == i - 1,
            forall|k: int| 0 <= k < i - 1 ==> (#[trigger] set@[k])@ == assignments()[k],
        decreases columns.len() - i,
    {
        let mut one = String::new();
        one.append(columns[i].as_str());
        one.append(" = tempdata.");
        one.append(columns[i].as_str());
        assert(views(columns@)[i as int] == columns@[i as int]@);
        set.push(one);
        i += 1;
    }
    assert(views(columns@).len() == columns@.len());
    assert(views(set@) =~= assignments());
    let mut r = String::new();
    r.append("WITH tempdata(");
    r.append(join(columns, ", ").as_str());
    r.append(") AS (VALUES ");
    r.append(join(&repeated(row.as_str(), count), ", ").as_str());
    r.append(") UPDATE video SET ");
    r.append(join(&set, ", ").as_str());
    r.append(" FROM tempdata WHERE video.id = tempdata.id");
    r
}

/// The result is the statement and the values for the videos, or the complaint about the first
/// column that is not set.
pub open spec fn detail_result<V>(
    r: Result<DetailUpdate<V>, String>,
    videos: Seq<Vec<Option<V>>>,
) -> bool {
    match r {
        Ok(update) => {
            &&& update.sql@ == detail_statement(videos.len())
            &&& update.values@.len() == slots(videos).len()
            &&& forall|k: int|
                0 <= k < update.values@.len() ==> slots(videos)[k] == Some(#[trigger] update.values@[k])
        },
        Err(text) => exists|at: int| #[trigger]
            first_unset(slots(videos), at) && text@ == "video column "@ + detail_columns()[at
                % (DETAIL_COLUMNS as int)] + " is not set"@,
    }
}

/// The statement that writes the details of the videos and the values that it takes, column by
/// column and video by video. Without videos there is nothing to write. A column that is not set
/// is refused.
pub fn update_video_detail_models<V>(videos: Vec<Vec<Option<V>>>) -> (r: Option<
    Result<DetailUpdate<V>, String>,
>)
    requires
        forall|i: int| 0 <= i < videos@.len() ==> (#[trigger] videos@[i])@.len() == DETAIL_COLUMNS,
    ensures
        r is None <==> videos@.len() == 0,
        r matches Some(r) ==> detail_result(r, videos@),
{
    if videos.len() == 0 {
        return None;
    }
    let count: usize = videos.len();
    let ghost all = videos@;
    let columns = list_detail_columns();
    let mut values: Vec<V> = Vec::new();
    proof {
        assert(contents(all.take(0)) =~= Seq::<Seq<Option<V>>>::empty());
        assert(slots(all.take(0)) =~= Seq::empty());
    }
    for video in rows: videos.into_iter()
        invariant
            rows.seq() == all,
            all == videos@,
            all.len() > 0,
            forall|i: int| 0 <= i < all.len() ==> (#[trigger] all[i])@.len() == DETAIL_COLUMNS,
            views(columns@) == detail_columns(),
            columns@.len() == DETAIL_COLUMNS,
            values@.len() == slots(all.take(rows.index() as int)).len(),
            values@.len() == rows.index() * DETAIL_COLUMNS,
            forall|k: int|
                0 <= k < values@.len() ==> slots(all.take(rows.index() as int))[k] == Some(
                    #[trigger] values@[k],
                ),
    {
        let ghost i = rows.index() as int;
        let ghost done = slots(all.take(i));
        let ghost row = video@;
        proof {
            lemma_slots_grow(all, i);
            lemma_slots_are_prefix(all, i + 1);
        }
        for slot in cells: video.into_iter()
            invariant
                cells.seq() == row,
                all == videos@,
                0 <= i < all.len(),
                row == all[i]@,
                row.len() == DETAIL_COLUMNS,
                done == slots(all.take(i)),
                done.len() == i * DETAIL_COLUMNS,
                views(columns@) == detail_columns(),
                columns@.len() == DETAIL_COLUMNS,
                slots(all.take(i + 1)) == done + row,
                slots(all).len() >= (done + row).len(),
                forall|k: int|
                    0 <= k < (done + row).len() ==> slots(all)[k] == #[trigger] (done + row)[k],
                values@.len() == done.len() + cells.index(),
                forall|k: int|
                    0 <= k < values@.len() ==> (done + row)[k] == Some(#[trigger] values@[k]),
        {
            let ghost j = cells.index() as int;
            match slot {
                Some(value) => {
                    values.push(value);
                    assert((done + row)[done.len() + j] == row[j]);
                },
                None => {
                    let column: usize = values.len() % DETAIL_COLUMNS;
                    proof {
                        let at = done.len() + j;
                        assert((done + row)[at] == row[j]);
                        assert(slots(all)[at] is None);
                        assert forall|k: int| 0 <= k < at implies (#[trigger] slots(all)[k]) is Some by {
                            assert((done + row)[k] == Some(values@[k]));
                        }
                        assert(first_unset(slots(all), at));
                        assert(views(columns@)[column as int] == columns@[column as int]@);
                    }
                    let mut text = String::new();
                    text.append("video column ");
                    text.append(columns[column].as_str());
                    text.append(" is not set");
                    return Some(Err(text));
                },
            }
        }
        assert((i + 1) * DETAIL_COLUMNS == i * DETAIL_COLUMNS + DETAIL_COLUMNS);
    }
    assert(all.take(all.len() as int) =~= all);
    Some(Ok(DetailUpdate { sql: detail_sql(&columns, count), values }))
}

proof fn lemma_slots_grow<V>(videos: Seq<Vec<Option<V>>>, i: int)
    requires
        0 <= i < videos.len(),
    ensures
        slots(videos.take(i + 1)) == slots(videos.take(i)) + videos[i]@,
{
    let before = contents(videos.take(i));
    assert(contents(videos.take(i + 1)) =~= before.push(videos[i]@));
    before.lemma_flatten_push(videos[i]@);
}

proof fn lemma_slots_are_prefix<V>(videos: Seq<Vec<Option<V>>>, i: int)
    requires
        0 <= i <= videos.len(),
    ensures
        slots(videos).len() >= slots(videos.take(i)).len(),
        forall|k: int|
            0 <= k < slots(videos.take(i)).len() ==> slots(videos)[k] == #[trigger] slots(
                videos.take(i),
            )[k],
    decreases videos.len() - i,
{
    if i == videos.len() {
        assert(videos.take(i) =~= videos);
    } else {
        lemma_slots_grow(videos, i);
        lemma_slots_are_prefix(videos, i + 1);
        assert forall|k: int| 0 <= k < slots(videos.take(i)).len() implies slots(videos)[k]
            == #[trigger] slots(videos.take(i))[k] by {
            assert(slots(videos.take(i + 1))[k] == slots(videos.take(i))[k]);
        }
    }
}

/// How often a character occurs in a text.
pub open spec fn occurrences(text: Seq<char>, c: char) -> nat
    decreases text.len(),
{
    if text.len() == 0 {
        0
    } else {
        occurrences(text.drop_last(), c) + if text.last() == c {
            1nat
        } else {
            0nat
        }
    }
}

proof fn lemma_occurrences_add(a: Seq<char>, b: Seq<char>, c: char)
    ensures
        occurrences(a + b, c) == occurrences(a, c) + occurrences(b, c),
    decreases b.len(),
{
    if b.len() == 0 {
        assert(a + b =~= a);
    } else {
        lemma_occurrences_add(a, b.drop_last(), c);
        assert((a + b).drop_last() =~= a + b.drop_last());
    }
}

proof fn lemma_occurrences_in_copies(text: Seq<char>, count: nat, c: char)
    requires
        occurrences(", "@, c) == 0,
    ensures
        occurrences(joined(copies(text, count), ", "@), c) == count * occurrences(text, c),
    decreases count,
{
    let parts = copies(text, count);
    if count == 0 {
        assert(joined(parts, ", "@) =~= Seq::empty());
    } else if count == 1 {
        assert(1 * occurrences(text, c) == occurrences(text, c));
    } else {
        let fewer = (count - 1) as nat;
        assert(parts.drop_last() =~= copies(text, fewer));
        lemma_occurrences_in_copies(text, fewer, c);
        let rest = joined(copies(text, fewer), ", "@);
        lemma_occurrences_add(rest, ", "@, c);
        lemma_occurrences_add(rest + ", "@, text, c);
        assert(count * occurrences(text, c) == fewer * occurrences(text, c) + occurrences(text, c))
            by (nonlinear_arith)
            requires
                count == fewer + 1,
        ;
    }
}

/// The statement has a placeholder for each value that it takes.
pub proof fn law_placeholders_match_values<V>(videos: Seq<Vec<Option<V>>>)
    requires
        forall|i: int| 0 <= i < videos.len() ==> (#[trigger] videos[i])@.len() == DETAIL_COLUMNS,
    ensures
        occurrences(placeholder_rows(videos.len()), '?') == slots(videos).len(),
{
    reveal_strlit(", ");
    reveal_strlit("?");
    reveal_strlit("(");
    reveal_strlit(")");
    reveal_with_fuel(occurrences, 3);
    let inside = joined(copies("?"@, DETAIL_COLUMNS as nat), ", "@);
    assert(occurrences(", "@, '?') == 0) by {
        assert(", "@.drop_last().last() == ',');
        assert(", "@.drop_last().drop_last() =~= Seq::empty());
    }
    assert(occurrences("?"@, '?') == 1);
    lemma_occurrences_in_copies("?"@, DETAIL_COLUMNS as nat, '?');
    lemma_occurrences_add("("@, inside, '?');
    lemma_occurrences_add("("@ + inside, ")"@, '?');
    assert(occurrences(placeholder_row(), '?') == DETAIL_COLUMNS);
    lemma_occurrences_in_copies(placeholder_row(), videos.len(), '?');
    lemma_slots_len(videos, videos.len() as int);
    assert(videos.take(videos.len() as int) =~= videos);
}

proof fn lemma_slots_len<V>(videos: Seq<Vec<Option<V>>>, i: int)
    requires
        0 <= i <= videos.len(),
        forall|k: int| 0 <= k < videos.len() ==> (#[trigger] videos[k])@.len() == DETAIL_COLUMNS,
    ensures
        slots(videos.take(i)).len() == i * DETAIL_COLUMNS,
    decreases i,
{
    if i == 0 {
        assert(contents(videos.take(0)) =~= Seq::<Seq<Option<V>>>::empty());
    } else {
        lemma_slots_len(videos, i - 1);
        lemma_slots_grow(videos, i - 1);
        assert(i * DETAIL_COLUMNS == (i - 1) * DETAIL_COLUMNS + DETAIL_COLUMNS);
    }
}

proof fn lemma_slots_stand_in_rows<V>(videos: Seq<Vec<Option<V>>>)
    requires
        forall|i: int| 0 <= i < videos.len() ==> (#[trigger] videos[i])@.len() == 21,
    ensures
        slots(videos).len() == videos.len() * 21,
        forall|i: int, j: int|
            0 <= i < videos.len() && 0 <= j < 21 ==> slots(videos)[i * 21 + j] == (
            #[trigger] videos[i]@[j]),
    decreases videos.len(),
{
    let n = videos.len() as int;
    if n == 0 {
        assert(contents(videos) =~= Seq::<Seq<Option<V>>>::empty());
    } else {
        let rest = videos.drop_last();
        assert(videos.take(n) =~= videos);
        assert(videos.take(n - 1) =~= rest);
        lemma_slots_grow(videos, n - 1);
        assert forall|i: int| 0 <= i < rest.len() implies (#[trigger] rest[i])@.len() == 21 by {
            assert(rest[i] == videos[i]);
        }
        lemma_slots_stand_in_rows(rest);
        assert forall|i: int, j: int| 0 <= i < videos.len() && 0 <= j < 21 implies slots(
            videos,
        )[i * 21 + j] == (#[trigger] videos[i]@[j]) by {
            if i < n - 1 {
                assert(rest[i] == videos[i]);
                assert(slots(rest)[i * 21 + j] == rest[i]@[j]);
                assert(slots(videos)[i * 21 + j] == slots(rest)[i * 21 + j]);
            } else {
                assert(slots(videos)[i * 21 + j] == videos[i]@[j]);
            }
        }
    }
}

/// The values go to the statement row by row: the `j`-th column of the `i`-th video is the value at
/// place `21 * i + j`, and there are no others. The update is refused exactly where some column of
/// some video is not set, and the first such one is named. Without videos there is no update.
pub proof fn law_values_keep_their_places<V>(
    videos: Vec<Vec<Option<V>>>,
    r: Option<Result<DetailUpdate<V>, String>>,
)
    requires
        forall|i: int| 0 <= i < videos@.len() ==> (#[trigger] videos@[i])@.len() == 21,
        call_ensures(update_video_detail_models, (videos,), r),
    ensures
        r is None <==> videos@.len() == 0,
        r matches Some(Ok(update)) ==> {
            &&& update.values@.len() == videos@.len() * 21
            &&& forall|i: int, j: int|
                0 <= i < videos@.len() && 0 <= j < 21 ==> Some(update.values@[i * 21 + j]) == (
                #[trigger] videos@[i]@[j])
        },
        r matches Some(Err(text)) ==> exists|i: int, j: int| #[trigger]
            is_first_missing(videos@, i, j) && text@ == "video column "@ + detail_columns()[j]
                + " is not set"@,
{
    lemma_slots_stand_in_rows(videos@);
    if let Some(Ok(update)) = r {
        assert forall|i: int, j: int| 0 <= i < videos@.len() && 0 <= j < 21 implies Some(
            update.values@[i * 21 + j],
        ) == (#[trigger] videos@[i]@[j]) by {
            assert(0 <= i * 21 + j < update.values@.len());
            assert(slots(videos@)[i * 21 + j] == Some(update.values@[i * 21 + j]));
        }
    }
    if let Some(Err(text)) = r {
        let at = choose|at: int| #[trigger]
            first_unset(slots(videos@), at) && text@ == "video column "@ + detail_columns()[at
                % (DETAIL_COLUMNS as int)] + " is not set"@;
        let i = at / 21;
        let j = at % 21;
        assert(at == i * 21 + j);
        assert(slots(videos@)[i * 21 + j] == videos@[i]@[j]);
        assert forall|k: int, l: int|
            0 <= k < videos@.len() && 0 <= l < 21 && k * 21 + l < i * 21 + j implies (
        #[trigger] videos@[k]@[l]) is Some by {
            assert(slots(videos@)[k * 21 + l] == videos@[k]@[l]);
        }
        assert(is_first_missing(videos@, i, j));
    }
}

/// The column of the video is not set, while all columns of the videos before it, and its own
/// columns before this one, are.
pub open spec fn is_first_missing<V>(videos: Seq<Vec<Option<V>>>, i: int, j: int) -> bool {
    &&& 0 <= i < videos.len()
    &&& 0 <= j < 21
    &&& videos[i]@[j] is None
    &&& forall|k: int, l: int|
        0 <= k < videos.len() && 0 <= l < 21 && k * 21 + l < i * 21 + j ==> (
        #[trigger] videos[k]@[l]) is Some
}

} // verus!
