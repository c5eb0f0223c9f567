//! Lists that are shown a page at a time.
use vstd::prelude::*;

verus! {

/// What a list is asked for: which page, and how long a page is.
#[derive(Clone, Copy, Debug, PartialEq, Eq, Structural)]
pub struct PageQuery {
    pub page: Option<u64>,
    pub page_size: Option<u64>,
}

/// Which page is shown, counted from zero, and how long a page is.
#[derive(Clone, Copy, Debug, PartialEq, Eq, Structural)]
pub struct PageRequest {
    pub page: u64,
    pub page_size: u64,
}

/// The length of a page of runs that is not asked for otherwise, and the longest one.
pub const RUN_PAGE_SIZE: u64 = 20;

pub const MAX_RUN_PAGE_SIZE: u64 = 100;

/// The length of a page of actions that is not asked for otherwise, and the longest one.
pub const ACTION_PAGE_SIZE: u64 = 50;

pub const MAX_ACTION_PAGE_SIZE: u64 = 200;

/// A value held between one and a greatest one.
pub open spec fn clamped(value: u64, greatest: u64) -> u64 {
    if value < 1 {
        1
    } else if value > greatest {
        greatest
    } else {
        value
    }
}

/// What is shown for a request: the first page unless another is asked for, and pages of the
/// usual length unless another is asked for, never empty and never beyond the longest.
pub open spec fn page_shown(
    page: Option<u64>,
    page_size: Option<u64>,
    usual: u64,
    longest: u64,
) -> PageRequest {
    PageRequest {
        page: match page {
            Some(page) => page,
            None => 0,
        },
        page_size: clamped(
            match page_size {
                Some(page_size) => page_size,
                None => usual,
            },
            longest,
        ),
    }
}

fn resolve_page(page: Option<u64>, page_size: Option<u64>, usual: u64, longest: u64) -> (r:
    PageRequest)
    ensures
        r == page_shown(page, page_size, usual, longest),
{
    let wanted: u64 = match page_size {
        Some(page_size) => page_size,
        None => usual,
    };
    PageRequest {
        page: match page {
            Some(page) => page,
            None => 0,
        },
        page_size: if wanted < 1 {
            1
        } else if wanted > longest {
            longest
        } else {
            wanted
        },
    }
}

/// The page of runs that is shown for a request.
pub fn run_page(query: &PageQuery) -> (r: PageRequest)
    ensures
        r == page_shown(query.page, query.page_size, RUN_PAGE_SIZE, MAX_RUN_PAGE_SIZE),
        1 <= r.page_size <= MAX_RUN_PAGE_SIZE,
{
    resolve_page(query.page, query.page_size, RUN_PAGE_SIZE, MAX_RUN_PAGE_SIZE)
}

/// The page of actions that is shown for a request.
pub fn action_page(query: &PageQuery) -> (r: PageRequest)
    ensures
        r == page_shown(query.page, query.page_size, ACTION_PAGE_SIZE, MAX_ACTION_PAGE_SIZE),
        1 <= r.page_size <= MAX_ACTION_PAGE_SIZE,
{
    resolve_page(query.page, query.page_size, ACTION_PAGE_SIZE, MAX_ACTION_PAGE_SIZE)
}

/// A list as it is answered: one page of it, and how long it is in all.
#[derive(Debug)]
pub struct ListResponse<T> {
    pub total_count: u64,
    pub items: Vec<T>,
}

/// What stands on a page of a list: behind the last page, nothing.
pub open spec fn page_of<T>(items: Seq<T>, shown: PageRequest) -> Seq<T> {
    let start = shown.page * shown.page_size;
    if start >= items.len() {
        Seq::empty()
    } else if start + shown.page_size >= items.len() {
        items.skip(start)
    } else {
        items.subrange(start, start + shown.page_size)
    }
}

/// Takes a page out of a list.
pub fn take_page<T>(items: Vec<T>, shown: PageRequest) -> (r: Vec<T>)
    ensures
        r@ == page_of(items@, shown),
{
    let ghost all = items@;
    let count: usize = items.len();
    proof {
        assert(0 <= shown.page * shown.page_size <= 0xffff_ffff_ffff_ffff * 0xffff_ffff_ffff_ffff)
            by (nonlinear_arith)
            requires
                0 <= shown.page <= 0xffff_ffff_ffff_ffff,
                0 <= shown.page_size <= 0xffff_ffff_ffff_ffff,
        ;
    }
    let start: u128 = shown.page as u128 * shown.page_size as u128;
    if start >= count as u128 {
        return Vec::new();
    }
    let mut items = items;
    let mut r = items.split_off(start as usize);
    assert(r@ =~= all.skip(start as int));
    if shown.page_size < r.len() as u64 {
        r.truncate(shown.page_size as usize);
        assert(r@ =~= all.subrange(start as int, start + shown.page_size));
    }
    r
}

/// Every item of a list stands on a page: the pages from zero on show the whole list, each item
/// once, in its order.
pub proof fn law_pages_show_the_whole_list<T>(items: Seq<T>, page_size: u64, i: int)
    requires
        page_size >= 1,
        0 <= i < items.len() <= u64::MAX,
    ensures
        ({
            let shown = PageRequest { page: (i / (page_size as int)) as u64, page_size };
            &&& (i % (page_size as int)) < page_of(items, shown).len() <= page_size
            &&& page_of(items, shown)[i % (page_size as int)] == items[i]
        }),
{
    let size = page_size as int;
    let page = i / size;
    assert(0 <= page <= i && page * size + i % size == i && 0 <= i % size < size)
        by (nonlinear_arith)
        requires
            size >= 1,
            0 <= i,
            page == i / size,
    ;
}

/// Without a wish the first page is shown, and 20 runs or 50 actions on a page; a page never has
/// less than one row, nor more than 100 runs or 200 actions.
pub proof fn law_pages_have_a_usual_and_a_greatest_length(
    query: PageQuery,
    runs: PageRequest,
    actions: PageRequest,
)
    requires
        call_ensures(run_page, (&query,), runs),
        call_ensures(action_page, (&query,), actions),
    ensures
        query.page is None ==> runs.page == 0 && actions.page == 0,
        query.page matches Some(page) ==> runs.page == page && actions.page == page,
        query.page_size is None ==> runs.page_size == 20 && actions.page_size == 50,
        query.page_size matches Some(size) ==> {
            &&& 1 <= size <= 100 ==> runs.page_size == size
            &&& size > 100 ==> runs.page_size == 100
            &&& 1 <= size <= 200 ==> actions.page_size == size
            &&& size > 200 ==> actions.page_size == 200
            &&& size == 0 ==> runs.page_size == 1 && actions.page_size == 1
        },
{
}

/// The rows of a page are those of the list from its place on, as many as a page holds or as are
/// left; `same` relates a row of the list to what is shown of it.
pub open spec fn shows_page<T, D>(
    rows: Seq<T>,
    shown: Seq<D>,
    page: int,
    size: int,
    same: spec_fn(T, D) -> bool,
) -> bool {
    &&& shown.len() <= size
    &&& shown.len() == size || page * size + shown.len() >= rows.len()
    &&& shown.len() > 0 ==> page * size + shown.len() <= rows.len()
    &&& forall|k: int|
        0 <= k < shown.len() ==> same(rows[page * size + k], #[trigger] shown[k])
}

/// A page that is taken out of a list shows the rows of the list from its place on.
pub proof fn law_pages_are_taken_in_order<T>(items: Vec<T>, wanted: PageRequest, r: Vec<T>)
    requires
        call_ensures(take_page, (items, wanted), r),
    ensures
        shows_page(
            items@,
            r@,
            wanted.page as int,
            wanted.page_size as int,
            |row: T, shown: T| shown == row,
        ),
{
    lemma_page_of(items@, wanted);
}

/// A page of a list shows the rows of the list from its place on.
pub proof fn lemma_page_of<T>(items: Seq<T>, wanted: PageRequest)
    ensures
        shows_page(
            items,
            page_of(items, wanted),
            wanted.page as int,
            wanted.page_size as int,
            |row: T, shown: T| shown == row,
        ),
{
    let start = wanted.page * wanted.page_size;
    assert(start >= 0) by (nonlinear_arith)
        requires
            start == wanted.page * wanted.page_size,
            wanted.page >= 0,
            wanted.page_size >= 0,
    ;
}

} // verus!
