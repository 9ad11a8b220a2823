//! A model of the measurement table and of what the history and latest
//! queries fetch from it, and the laws of paging through it.
use crate::server::db::{
    filters_admit, ids_strictly_decreasing, in_history_window, lemma_history_filters_select_window,
    next_cursor_of, page_len, spec_fetch_limit, spec_history_filters, HistoryFilter, StoredRow,
};
use vstd::prelude::*;

verus! {

/// The rows of `table` that meet every condition of `filters`, in the order
/// of `table`.
pub open spec fn select_rows(table: Seq<StoredRow>, filters: Seq<HistoryFilter>) -> Seq<StoredRow>
    decreases table.len(),
{
    if table.len() == 0 {
        Seq::empty()
    } else {
        let rest = select_rows(table.drop_first(), filters);
        if filters_admit(filters, table[0]) {
            seq![table[0]] + rest
        } else {
            rest
        }
    }
}

/// A selection holds exactly the rows of the table that meet the conditions.
pub proof fn lemma_select_rows_members(table: Seq<StoredRow>, filters: Seq<HistoryFilter>)
    ensures
        forall|r: StoredRow|
            #[trigger] select_rows(table, filters).contains(r) <==> (table.contains(r)
                && filters_admit(filters, r)),
    decreases table.len(),
{
    if table.len() > 0 {
        let rest_table = table.drop_first();
        lemma_select_rows_members(rest_table, filters);
        let s = select_rows(table, filters);
        let rest = select_rows(rest_table, filters);
        if filters_admit(filters, table[0]) {
            assert(s == seq![table[0]] + rest);
        } else {
            assert(s == rest);
        }
        assert forall|r: StoredRow| #[trigger] s.contains(r) <==> (table.contains(r) && filters_admit(
            filters,
            r,
        )) by {
            if s.contains(r) {
                let k = choose|k: int| 0 <= k < s.len() && s[k] == r;
                if filters_admit(filters, table[0]) && k == 0 {
                    assert(table[0] == r);
                } else {
                    let k2: int = if filters_admit(filters, table[0]) { k - 1 } else { k };
                    assert(rest[k2] == r);
                    assert(rest.contains(r));
                    assert(rest_table.contains(r));
                    let m = choose|m: int| 0 <= m < rest_table.len() && rest_table[m] == r;
                    assert(table[m + 1] == r);
                }
            }
            if table.contains(r) && filters_admit(filters, r) {
                let m = choose|m: int| 0 <= m < table.len() && table[m] == r;
                if m == 0 {
                    assert(s[0] == r);
                } else {
                    assert(rest_table[m - 1] == r);
                    assert(rest_table.contains(r));
                    assert(rest.contains(r));
                    let k = choose|k: int| 0 <= k < rest.len() && rest[k] == r;
                    if filters_admit(filters, table[0]) {
                        assert(s[k + 1] == r);
                    } else {
                        assert(s[k] == r);
                    }
                }
            }
        }
    }
}

/// A selection from a table ordered by strictly decreasing ids keeps that
/// order.
pub proof fn lemma_select_rows_decreasing(table: Seq<StoredRow>, filters: Seq<HistoryFilter>)
    requires
        ids_strictly_decreasing(table),
    ensures
        ids_strictly_decreasing(select_rows(table, filters)),
    decreases table.len(),
{
    if table.len() > 0 {
        let rest_table = table.drop_first();
        assert(ids_strictly_decreasing(rest_table));
        lemma_select_rows_decreasing(rest_table, filters);
        lemma_select_rows_members(rest_table, filters);
        let rest = select_rows(rest_table, filters);
        if filters_admit(filters, table[0]) {
            let s = select_rows(table, filters);
            assert forall|i: int, j: int| 0 <= i < j < s.len() implies s[i].id > s[j].id by {
                assert(s[j] == rest[j - 1]);
                if i == 0 {
                    assert(rest.contains(rest[j - 1]));
                    let m = choose|m: int| 0 <= m < rest_table.len() && rest_table[m] == rest[j - 1];
                    assert(table[m + 1] == rest[j - 1]);
                } else {
                    assert(s[i] == rest[i - 1]);
                }
            }
        }
    }
}

/// Selecting with conditions that every row meets keeps every row.
pub proof fn lemma_select_rows_all(s: Seq<StoredRow>, filters: Seq<HistoryFilter>)
    requires
        forall|i: int| 0 <= i < s.len() ==> filters_admit(filters, #[trigger] s[i]),
    ensures
        select_rows(s, filters) == s,
    decreases s.len(),
{
    if s.len() > 0 {
        assert(filters_admit(filters, s[0]));
        let rest = s.drop_first();
        assert forall|i: int| 0 <= i < rest.len() implies filters_admit(filters, #[trigger] rest[i]) by {
            assert(rest[i] == s[i + 1]);
        }
        lemma_select_rows_all(rest, filters);
        assert(seq![s[0]] + rest =~= s);
    }
}

/// The single condition "id below `c`".
pub open spec fn id_below(c: i64) -> Seq<HistoryFilter> {
    seq![HistoryFilter::IdBelow(c)]
}

proof fn lemma_id_below_admits(c: i64, r: StoredRow)
    ensures
        filters_admit(id_below(c), r) <==> r.id < c,
{
    if r.id < c {
        assert forall|i: int| 0 <= i < id_below(c).len() implies (#[trigger] id_below(c)[i]).admits(
            r,
        ) by {
            assert(id_below(c)[i] == HistoryFilter::IdBelow(c));
        }
    } else {
        assert(!id_below(c)[0].admits(r));
    }
}

/// In rows of strictly decreasing ids, the rows below the id of row `j` are
/// the rows after it.
pub proof fn lemma_below_is_suffix(s: Seq<StoredRow>, j: int)
    requires
        ids_strictly_decreasing(s),
        0 <= j < s.len(),
    ensures
        select_rows(s, id_below(s[j].id)) == s.skip(j + 1),
    decreases j,
{
    let c = s[j].id;
    let rest = s.drop_first();
    lemma_id_below_admits(c, s[0]);
    assert(ids_strictly_decreasing(rest));
    if j == 0 {
        assert forall|i: int| 0 <= i < rest.len() implies filters_admit(
            id_below(c),
            #[trigger] rest[i],
        ) by {
            assert(rest[i] == s[i + 1]);
            lemma_id_below_admits(c, rest[i]);
        }
        lemma_select_rows_all(rest, id_below(c));
        assert(s.skip(1) =~= rest);
    } else {
        assert(rest[j - 1] == s[j]);
        lemma_below_is_suffix(rest, j - 1);
        assert(rest.skip(j) =~= s.skip(j + 1));
    }
}

/// Moving the cursor down to `c` narrows a selection to its rows below `c`.
pub proof fn lemma_narrow_cursor(
    table: Seq<StoredRow>,
    from_ms: Option<i64>,
    to_ms: Option<i64>,
    cursor: Option<i64>,
    c: i64,
)
    requires
        cursor matches Some(x) ==> c <= x,
    ensures
        select_rows(table, spec_history_filters(from_ms, to_ms, Some(c))) == select_rows(
            select_rows(table, spec_history_filters(from_ms, to_ms, cursor)),
            id_below(c),
        ),
    decreases table.len(),
{
    if table.len() > 0 {
        let first = spec_history_filters(from_ms, to_ms, cursor);
        let next = spec_history_filters(from_ms, to_ms, Some(c));
        let h = table[0];
        let rt = table.drop_first();
        lemma_narrow_cursor(rt, from_ms, to_ms, cursor, c);
        lemma_history_filters_select_window(from_ms, to_ms, cursor, h);
        lemma_history_filters_select_window(from_ms, to_ms, Some(c), h);
        lemma_id_below_admits(c, h);
        let inner_rest = select_rows(rt, first);
        if filters_admit(first, h) {
            let inner = seq![h] + inner_rest;
            assert(inner.drop_first() =~= inner_rest);
            assert(inner[0] == h);
            assert(select_rows(table, first) == inner);
        } else {
            assert(select_rows(table, first) == inner_rest);
        }
    }
}

/// What a query with the given conditions and row count fetches from the
/// table: the first rows that meet the conditions, as many as asked for.
/// `table` holds the measurements in the order of the query's
/// `ORDER BY id DESC`.
pub open spec fn fetched_rows(table: Seq<StoredRow>, filters: Seq<HistoryFilter>, fetch_limit: u32) -> Seq<
    StoredRow,
> {
    let m = select_rows(table, filters);
    if m.len() <= fetch_limit {
        m
    } else {
        m.take(fetch_limit as int)
    }
}

/// The rows behind the readings of a page made from `fetched` rows
/// (`history_page` turns each into its reading, in order).
pub open spec fn page_rows(fetched: Seq<StoredRow>, limit: u32) -> Seq<StoredRow> {
    fetched.take(page_len(fetched.len(), limit) as int)
}

/// The rows that the history query for the window and cursor fetches.
pub open spec fn history_fetch(
    table: Seq<StoredRow>,
    from_ms: Option<i64>,
    to_ms: Option<i64>,
    cursor: Option<i64>,
    limit: u32,
) -> Seq<StoredRow> {
    fetched_rows(table, spec_history_filters(from_ms, to_ms, cursor), spec_fetch_limit(limit))
}

/// When a page announces a cursor, the next query selects exactly the
/// selected rows after those the page returned.
pub proof fn lemma_next_selection(
    table: Seq<StoredRow>,
    from_ms: Option<i64>,
    to_ms: Option<i64>,
    cursor: Option<i64>,
    limit: u32,
)
    requires
        ids_strictly_decreasing(table),
        next_cursor_of(history_fetch(table, from_ms, to_ms, cursor, limit), limit) is Some,
    ensures
        ({
            let m = select_rows(table, spec_history_filters(from_ms, to_ms, cursor));
            let c = next_cursor_of(history_fetch(table, from_ms, to_ms, cursor, limit), limit)->0;
            &&& 1 <= limit < m.len()
            &&& select_rows(table, spec_history_filters(from_ms, to_ms, Some(c))) == m.skip(
                limit as int,
            )
        }),
{
    let first = spec_history_filters(from_ms, to_ms, cursor);
    let m = select_rows(table, first);
    let fetched = history_fetch(table, from_ms, to_ms, cursor, limit);
    let c = next_cursor_of(fetched, limit)->0;
    assert(fetched.len() == limit + 1);
    let j = limit - 1;
    assert(c == m[j].id);
    lemma_select_rows_members(table, first);
    lemma_select_rows_decreasing(table, first);
    assert(m.contains(m[j]));
    lemma_history_filters_select_window(from_ms, to_ms, cursor, m[j]);
    lemma_narrow_cursor(table, from_ms, to_ms, cursor, c);
    lemma_below_is_suffix(m, j);
}

/// The pages that a client gets by starting with `cursor` and then asking
/// again with each announced cursor until a page announces none: for each
/// page, the rows behind its readings and the cursor it announces.
pub open spec fn history_pages(
    table: Seq<StoredRow>,
    from_ms: Option<i64>,
    to_ms: Option<i64>,
    cursor: Option<i64>,
    limit: u32,
) -> Seq<(Seq<StoredRow>, Option<i64>)>
    decreases select_rows(table, spec_history_filters(from_ms, to_ms, cursor)).len(),
    when ids_strictly_decreasing(table)
{
    let fetched = history_fetch(table, from_ms, to_ms, cursor, limit);
    let page = (page_rows(fetched, limit), next_cursor_of(fetched, limit));
    match next_cursor_of(fetched, limit) {
        None => seq![page],
        Some(c) => {
            proof {
                lemma_next_selection(table, from_ms, to_ms, cursor, limit);
            }
            seq![page] + history_pages(table, from_ms, to_ms, Some(c), limit)
        },
    }
}

/// The rows of a sequence of pages, one page after the other.
pub open spec fn listed_rows(pages: Seq<(Seq<StoredRow>, Option<i64>)>) -> Seq<StoredRow>
    decreases pages.len(),
{
    if pages.len() == 0 {
        Seq::empty()
    } else {
        pages[0].0 + listed_rows(pages.drop_first())
    }
}

proof fn lemma_pages_from(
    table: Seq<StoredRow>,
    from_ms: Option<i64>,
    to_ms: Option<i64>,
    cursor: Option<i64>,
    limit: u32,
)
    requires
        ids_strictly_decreasing(table),
        1 <= limit,
        limit < u32::MAX || select_rows(table, spec_history_filters(from_ms, to_ms, cursor)).len()
            < u32::MAX,
    ensures
        ({
            let pages = history_pages(table, from_ms, to_ms, cursor, limit);
            &&& listed_rows(pages) == select_rows(table, spec_history_filters(from_ms, to_ms, cursor))
            &&& pages.len() >= 1
            &&& forall|k: int| 0 <= k < pages.len() ==> (#[trigger] pages[k]).0.len() <= limit
            &&& forall|k: int|
                0 <= k < pages.len() ==> ((#[trigger] pages[k]).1 is None <==> k == pages.len()
                    - 1)
        }),
    decreases select_rows(table, spec_history_filters(from_ms, to_ms, cursor)).len(),
{
    let m = select_rows(table, spec_history_filters(from_ms, to_ms, cursor));
    let fetched = history_fetch(table, from_ms, to_ms, cursor, limit);
    let page = (page_rows(fetched, limit), next_cursor_of(fetched, limit));
    let pages = history_pages(table, from_ms, to_ms, cursor, limit);
    match next_cursor_of(fetched, limit) {
        None => {
            assert(pages == seq![page]);
            assert(m.len() <= limit);
            assert(fetched == m);
            assert(page.0 =~= m);
            assert(pages.drop_first() =~= Seq::<(Seq<StoredRow>, Option<i64>)>::empty());
            assert(listed_rows(pages) == page.0 + listed_rows(pages.drop_first()));
            assert(listed_rows(pages) =~= m);
        },
        Some(c) => {
            lemma_next_selection(table, from_ms, to_ms, cursor, limit);
            let rest = history_pages(table, from_ms, to_ms, Some(c), limit);
            lemma_pages_from(table, from_ms, to_ms, Some(c), limit);
            assert(pages == seq![page] + rest);
            assert(pages.drop_first() =~= rest);
            assert(page.0 =~= m.take(limit as int));
            assert(listed_rows(pages) == page.0 + listed_rows(rest));
            assert(m.take(limit as int) + m.skip(limit as int) =~= m);
            assert forall|k: int| 0 <= k < pages.len() implies (#[trigger] pages[k]).0.len() <= limit
                && (pages[k].1 is None <==> k == pages.len() - 1) by {
                if k > 0 {
                    assert(pages[k] == rest[k - 1]);
                }
            }
        },
    }
}

/// Paging through the history lists every matching row exactly once, newest
/// first. Starting without a cursor and asking again with each announced
/// cursor, over a table whose rows the query orders by strictly decreasing
/// id: the pages, one after the other, hold exactly the rows in the window,
/// in the table's order (so each once, with strictly decreasing ids); each
/// page holds at most `limit` rows; and every page but the last announces a
/// cursor, the last none. A page size of 0 never advances, so it is left
/// out; so is the largest `u32` as page size where `u32::MAX` or more rows
/// match, since the query then has no room for the row that announces a
/// further page.
pub proof fn lemma_paging_lists_every_row_once(
    table: Seq<StoredRow>,
    from_ms: Option<i64>,
    to_ms: Option<i64>,
    limit: u32,
)
    requires
        ids_strictly_decreasing(table),
        1 <= limit,
        limit < u32::MAX || select_rows(table, spec_history_filters(from_ms, to_ms, None)).len()
            < u32::MAX,
    ensures
        ({
            let pages = history_pages(table, from_ms, to_ms, None, limit);
            let listed = listed_rows(pages);
            &&& listed == select_rows(table, spec_history_filters(from_ms, to_ms, None))
            &&& ids_strictly_decreasing(listed)
            &&& forall|r: StoredRow|
                #[trigger] listed.contains(r) <==> (table.contains(r) && in_history_window(
                    from_ms,
                    to_ms,
                    None,
                    r,
                ))
            &&& pages.len() >= 1
            &&& forall|k: int| 0 <= k < pages.len() ==> (#[trigger] pages[k]).0.len() <= limit
            &&& forall|k: int|
                0 <= k < pages.len() ==> ((#[trigger] pages[k]).1 is None <==> k == pages.len()
                    - 1)
        }),
{
    let filters = spec_history_filters(from_ms, to_ms, None);
    lemma_pages_from(table, from_ms, to_ms, None, limit);
    lemma_select_rows_decreasing(table, filters);
    lemma_select_rows_members(table, filters);
    let listed = listed_rows(history_pages(table, from_ms, to_ms, None, limit));
    assert forall|r: StoredRow| #[trigger] listed.contains(r) <==> (table.contains(r)
        && in_history_window(from_ms, to_ms, None, r)) by {
        lemma_history_filters_select_window(from_ms, to_ms, None, r);
    }
}

/// What the latest-reading query fetches from the table: its first row in
/// the query's order, if there is one.
pub open spec fn latest_fetch(table: Seq<StoredRow>) -> Option<StoredRow> {
    if table.len() == 0 {
        None
    } else {
        Some(table[0])
    }
}

/// The latest reading is the single reading of a history page of size 1
/// without window or cursor: the latest query finds no row exactly when that
/// page is empty, and otherwise the page holds just the row it finds (so
/// `latest_reading` and `history_page` make the same reading of it, or fail
/// alike). Over a table in the query's order, that row has the greatest id.
pub proof fn lemma_latest_is_first_of_single_page(table: Seq<StoredRow>)
    ensures
        ({
            let page = page_rows(history_fetch(table, None, None, None, 1), 1);
            &&& latest_fetch(table) is None <==> page.len() == 0
            &&& latest_fetch(table) matches Some(row) ==> page == seq![row]
            &&& ids_strictly_decreasing(table) ==> (latest_fetch(table) matches Some(row)
                ==> forall|i: int| 0 <= i < table.len() ==> (#[trigger] table[i]).id <= row.id)
        }),
{
    let filters = spec_history_filters(None, None, None);
    assert(filters =~= Seq::<HistoryFilter>::empty());
    assert forall|i: int| 0 <= i < table.len() implies filters_admit(filters, #[trigger] table[i]) by {
    }
    lemma_select_rows_all(table, filters);
    let fetched = history_fetch(table, None, None, None, 1);
    if table.len() == 0 {
        assert(fetched.len() == 0);
    } else if table.len() == 1 {
        assert(fetched == table);
        assert(page_rows(fetched, 1) =~= seq![table[0]]);
    } else {
        assert(fetched == table.take(2));
        assert(page_rows(fetched, 1) =~= seq![table[0]]);
    }
}

} // verus!
