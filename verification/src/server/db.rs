//! The logic around the measurement table: how a stored row becomes a
//! reading, how a history request becomes a query, and how the rows that the
//! query returns become one page of the history.
use crate::protocol::weather::{WeatherReading, WeatherReadingView};
use crate::server::error::Error;
use crate::server::rfc3339::{format_rfc3339_unix_nanos, rfc3339_text_of_unix_nanos};
use vstd::prelude::*;

verus! {

/// One row of the measurement table, as the database hands it back.
#[derive(Clone, Copy, Debug, PartialEq, Eq, Structural)]
pub struct StoredRow {
    pub id: i64,
    /// Bit pattern of the temperature (`f64::to_bits`).
    pub temperature: u64,
    /// Bit pattern of the humidity (`f64::to_bits`).
    pub humidity: u64,
    /// Bit pattern of the wind speed (`f64::to_bits`).
    pub wind_speed: u64,
    /// Milliseconds since the Unix epoch at which the row was stored.
    pub recorded_at_ms: i64,
}

/// Nanoseconds since the Unix epoch of a count of milliseconds.
pub open spec fn unix_nanos_of_millis(ms: i64) -> i128 {
    (ms * 1_000_000) as i128
}

/// Converts milliseconds since the Unix epoch to nanoseconds.
pub fn millis_to_unix_nanos(ms: i64) -> (nanos: i128)
    ensures
        nanos == ms * 1_000_000,
        nanos == unix_nanos_of_millis(ms),
{
    assert(-9_223_372_036_854_775_808_000_000 <= ms * 1_000_000 <= 9_223_372_036_854_775_807_000_000)
        by (nonlinear_arith)
        requires
            i64::MIN <= ms <= i64::MAX,
    ;
    (ms as i128) * 1_000_000
}

/// The milliseconds since the Unix epoch, as an `i64`, of a count of
/// milliseconds taken from the system clock; `InvalidTimestamp` where it
/// does not fit.
pub fn recorded_at_ms_of(millis: u128) -> (r: Result<i64, Error>)
    ensures
        millis <= i64::MAX ==> r == Ok::<i64, Error>(millis as i64),
        millis > i64::MAX ==> r matches Err(Error::InvalidTimestamp),
{
    if millis <= 9_223_372_036_854_775_807u128 {
        Ok(millis as i64)
    } else {
        Err(Error::InvalidTimestamp)
    }
}

/// The reading of a row whose recording time has the text `recorded_at`.
pub open spec fn reading_view_of_row(row: StoredRow, recorded_at: Seq<char>) -> WeatherReadingView {
    WeatherReadingView {
        id: row.id,
        temperature: row.temperature,
        humidity: row.humidity,
        wind_speed: row.wind_speed,
        recorded_at,
    }
}

/// The reading of a row, or `None` where its recording time cannot be
/// written as RFC 3339 text.
pub open spec fn spec_reading_of_row(row: StoredRow) -> Option<WeatherReadingView> {
    match rfc3339_text_of_unix_nanos(unix_nanos_of_millis(row.recorded_at_ms)) {
        Some(text) => Some(reading_view_of_row(row, text)),
        None => None,
    }
}

/// Builds the reading of a row from the RFC 3339 text of its recording time,
/// where one could be written.
pub fn reading_from_formatted(row: StoredRow, recorded_at: Option<String>) -> (r: Result<
    WeatherReading,
    Error,
>)
    ensures
        match recorded_at {
            Some(text) => r matches Ok(reading) && reading@ == reading_view_of_row(row, text@),
            None => r matches Err(Error::InvalidTimestamp),
        },
        recorded_at matches Some(text) ==> (r matches Ok(reading) && reading.recorded_at@ == text@),
        r matches Ok(reading) ==> reading.id == row.id && reading.temperature == row.temperature
            && reading.humidity == row.humidity && reading.wind_speed == row.wind_speed,
{
    match recorded_at {
        Some(text) => Ok(
            WeatherReading {
                id: row.id,
                temperature: row.temperature,
                humidity: row.humidity,
                wind_speed: row.wind_speed,
                recorded_at: text,
            },
        ),
        None => Err(Error::InvalidTimestamp),
    }
}

/// Turns a stored row into a reading: the recording time becomes RFC 3339
/// text in UTC.
pub fn row_to_reading(row: StoredRow) -> (r: Result<WeatherReading, Error>)
    ensures
        match spec_reading_of_row(row) {
            Some(view) => r matches Ok(reading) && reading@ == view,
            None => r matches Err(Error::InvalidTimestamp),
        },
        r matches Ok(reading) ==> reading.id == row.id && reading.temperature == row.temperature
            && reading.humidity == row.humidity && reading.wind_speed == row.wind_speed,
{
    let nanos = millis_to_unix_nanos(row.recorded_at_ms);
    let text = format_rfc3339_unix_nanos(nanos);
    reading_from_formatted(row, text)
}

/// The most recent reading from the most recent row, if there is one.
pub fn latest_reading(row: Option<StoredRow>) -> (r: Result<Option<WeatherReading>, Error>)
    ensures
        match row {
            None => r matches Ok(None),
            Some(row) => match spec_reading_of_row(row) {
                Some(view) => r matches Ok(Some(reading)) && reading@ == view,
                None => r matches Err(Error::InvalidTimestamp),
            },
        },
    r matches Ok(Some(reading)) ==> (row matches Some(row) && reading.id == row.id
            && reading.temperature == row.temperature && reading.humidity == row.humidity
            && reading.wind_speed == row.wind_speed),
{
    match row {
        None => Ok(None),
        Some(row) => match row_to_reading(row) {
            Ok(reading) => Ok(Some(reading)),
            Err(e) => Err(e),
        },
    }
}

/// Every row of `rows` can be turned into a reading.
pub open spec fn rows_readable(rows: Seq<StoredRow>) -> bool {
    forall|i: int| 0 <= i < rows.len() ==> (#[trigger] spec_reading_of_row(rows[i])) is Some
}

/// How many of `n` fetched rows a page keeps: the query asks for one row more
/// than the limit, and that extra row only tells that a further page exists.
pub open spec fn page_len(n: nat, limit: u32) -> nat {
    if n > limit {
        (n - 1) as nat
    } else {
        n
    }
}

/// The cursor of the next page: where a row beyond the limit was fetched,
/// the id of the last row that the page keeps, if it keeps any.
pub open spec fn next_cursor_of(rows: Seq<StoredRow>, limit: u32) -> Option<i64> {
    if rows.len() > limit && rows.len() >= 2 {
        Some(rows[rows.len() - 2].id)
    } else {
        None
    }
}

/// Turns the rows that a history query fetched (at most `limit + 1` of them,
/// newest first) into one page: every row becomes a reading, the row beyond
/// the limit is dropped, and its presence yields the cursor of the next page.
/// Fails with `InvalidTimestamp` where some row cannot become a reading.
pub fn history_page(rows: &Vec<StoredRow>, limit: u32) -> (r: Result<
    (Vec<WeatherReading>, Option<i64>),
    Error,
>)
    ensures
        r is Ok <==> rows_readable(rows@),
        r is Err ==> r matches Err(Error::InvalidTimestamp),
        r matches Ok((items, cursor)) ==> {
            &&& items.len() == page_len(rows@.len(), limit)
            &&& forall|i: int|
                0 <= i < items.len() ==> Some((#[trigger] items@[i])@) == spec_reading_of_row(
                    rows@[i],
                )
            &&& cursor == next_cursor_of(rows@, limit)
            &&& forall|i: int|
                0 <= i < items.len() ==> {
                    &&& (#[trigger] items@[i]).id == rows@[i].id
                    &&& items@[i].temperature == rows@[i].temperature
                    &&& items@[i].humidity == rows@[i].humidity
                    &&& items@[i].wind_speed == rows@[i].wind_speed
                }
        },
{
    let mut items: Vec<WeatherReading> = Vec::new();
    let n = rows.len();
    for k in 0..n
        invariant
            n == rows@.len(),
            items.len() == k,
            forall|i: int|
                0 <= i < k ==> Some((#[trigger] items@[i])@) == spec_reading_of_row(rows@[i]),
    {
        match row_to_reading(rows[k]) {
            Ok(reading) => {
                items.push(reading);
            },
            Err(e) => {
                assert(spec_reading_of_row(rows@[k as int]) is None);
                return Err(e);
            },
        }
    }
    assert(rows_readable(rows@)) by {
        assert forall|i: int| 0 <= i < rows@.len() implies (#[trigger] spec_reading_of_row(
            rows@[i],
        )) is Some by {
            assert(Some(items@[i]@) == spec_reading_of_row(rows@[i]));
        }
    }
    if items.len() > limit as usize {
        items.pop();
        let cursor = if items.len() > 0 {
            Some(items[items.len() - 1].id)
        } else {
            None
        };
        proof {
            if items.len() > 0 {
                let j = items.len() - 1;
                assert(Some(items@[j]@) == spec_reading_of_row(rows@[j]));
            }
        }
        Ok((items, cursor))
    } else {
        Ok((items, None))
    }
}

/// Start of the history query: every measurement, before any filter.
pub const HISTORY_SELECT_SQL: &'static str =
    "SELECT id, temperature_c, humidity_percent, wind_speed, recorded_at_ms FROM weather_measurements WHERE 1=1";

/// End of the history query, before its bound row count: newest first.
pub const HISTORY_ORDER_SQL: &'static str = " ORDER BY id DESC LIMIT ";

/// The latest-reading query: the newest row, in the same order as the
/// history query and without conditions.
pub const LATEST_SQL: &'static str =
    "SELECT id, temperature_c, humidity_percent, wind_speed, recorded_at_ms FROM weather_measurements ORDER BY id DESC LIMIT 1";

/// One condition of a history query, with its bound value.
#[derive(Clone, Copy, Debug, PartialEq, Eq, Structural)]
pub enum HistoryFilter {
    /// Recorded at or after this many milliseconds since the Unix epoch.
    RecordedFrom(i64),
    /// Recorded before this many milliseconds since the Unix epoch.
    RecordedBefore(i64),
    /// With an id below this one.
    IdBelow(i64),
}

impl HistoryFilter {
    /// Whether a row meets the condition.
    pub open spec fn admits(self, row: StoredRow) -> bool {
        match self {
            HistoryFilter::RecordedFrom(from_ms) => row.recorded_at_ms >= from_ms,
            HistoryFilter::RecordedBefore(to_ms) => row.recorded_at_ms < to_ms,
            HistoryFilter::IdBelow(cursor) => row.id < cursor,
        }
    }

    /// The SQL text of the condition, which precedes its bound value.
    pub open spec fn spec_sql(self) -> Seq<char> {
        match self {
            HistoryFilter::RecordedFrom(_) => " AND recorded_at_ms >= "@,
            HistoryFilter::RecordedBefore(_) => " AND recorded_at_ms < "@,
            HistoryFilter::IdBelow(_) => " AND id < "@,
        }
    }

    /// The value bound to the condition.
    pub open spec fn spec_bound(self) -> i64 {
        match self {
            HistoryFilter::RecordedFrom(v) => v,
            HistoryFilter::RecordedBefore(v) => v,
            HistoryFilter::IdBelow(v) => v,
        }
    }

    /// Returns the SQL text of the condition.
    pub fn sql(&self) -> (text: &'static str)
        ensures
            text@ == self.spec_sql(),
            self is RecordedFrom ==> text@ == " AND recorded_at_ms >= "@,
            self is RecordedBefore ==> text@ == " AND recorded_at_ms < "@,
            self is IdBelow ==> text@ == " AND id < "@,
    {
        match self {
            HistoryFilter::RecordedFrom(_) => " AND recorded_at_ms >= ",
            HistoryFilter::RecordedBefore(_) => " AND recorded_at_ms < ",
            HistoryFilter::IdBelow(_) => " AND id < ",
        }
    }

    /// Returns the value bound to the condition.
    pub fn bound(&self) -> (value: i64)
        ensures
            value == self.spec_bound(),
    {
        match self {
            HistoryFilter::RecordedFrom(v) => *v,
            HistoryFilter::RecordedBefore(v) => *v,
            HistoryFilter::IdBelow(v) => *v,
        }
    }
}

/// The conditions of a history query, in the order in which the query
/// states them.
pub open spec fn spec_history_filters(
    from_ms: Option<i64>,
    to_ms: Option<i64>,
    cursor: Option<i64>,
) -> Seq<HistoryFilter> {
    let a = match from_ms {
        Some(v) => seq![HistoryFilter::RecordedFrom(v)],
        None => Seq::empty(),
    };
    let b = match to_ms {
        Some(v) => seq![HistoryFilter::RecordedBefore(v)],
        None => Seq::empty(),
    };
    let c = match cursor {
        Some(v) => seq![HistoryFilter::IdBelow(v)],
        None => Seq::empty(),
    };
    a + b + c
}

/// A row meets every condition of `filters`.
pub open spec fn filters_admit(filters: Seq<HistoryFilter>, row: StoredRow) -> bool {
    forall|i: int| 0 <= i < filters.len() ==> (#[trigger] filters[i]).admits(row)
}

/// A row lies in the window that a history request asks for.
pub open spec fn in_history_window(
    from_ms: Option<i64>,
    to_ms: Option<i64>,
    cursor: Option<i64>,
    row: StoredRow,
) -> bool {
    &&& (from_ms matches Some(f) ==> row.recorded_at_ms >= f)
    &&& (to_ms matches Some(t) ==> row.recorded_at_ms < t)
    &&& (cursor matches Some(c) ==> row.id < c)
}

/// How many rows a history query fetches for a page of at most `limit`
/// readings: one more, so that the page knows whether another follows
/// (saturating at the largest `u32`).
pub open spec fn spec_fetch_limit(limit: u32) -> u32 {
    if limit == u32::MAX {
        u32::MAX
    } else {
        (limit + 1) as u32
    }
}

/// What a history query asks the database for.
#[derive(Debug, Clone)]
pub struct HistoryQueryPlan {
    /// The conditions, in order; each is written as its SQL text followed by
    /// its bound value, after `HISTORY_SELECT_SQL`.
    pub filters: Vec<HistoryFilter>,
    /// The row count bound after `HISTORY_ORDER_SQL`.
    pub fetch_limit: u32,
}

/// Returns how many rows to fetch for a page of at most `limit` readings.
pub fn fetch_limit(limit: u32) -> (n: u32)
    ensures
        n == spec_fetch_limit(limit),
{
    limit.saturating_add(1)
}

/// Plans the history query for the given window, cursor and page size.
pub fn plan_history_query(
    from_ms: Option<i64>,
    to_ms: Option<i64>,
    cursor: Option<i64>,
    limit: u32,
) -> (plan: HistoryQueryPlan)
    ensures
        plan.filters@ == spec_history_filters(from_ms, to_ms, cursor),
        plan.fetch_limit == spec_fetch_limit(limit),
        plan.fetch_limit == (if limit < u32::MAX {
            limit + 1
        } else {
            limit as int
        }),
        forall|row: StoredRow|
            filters_admit(plan.filters@, row) <==> {
                &&& (from_ms matches Some(f) ==> row.recorded_at_ms >= f)
                &&& (to_ms matches Some(t) ==> row.recorded_at_ms < t)
                &&& (cursor matches Some(c) ==> row.id < c)
            },
{
    let mut filters: Vec<HistoryFilter> = Vec::new();
    if let Some(v) = from_ms {
        filters.push(HistoryFilter::RecordedFrom(v));
    }
    if let Some(v) = to_ms {
        filters.push(HistoryFilter::RecordedBefore(v));
    }
    if let Some(v) = cursor {
        filters.push(HistoryFilter::IdBelow(v));
    }
    proof {
        assert(filters@ =~= spec_history_filters(from_ms, to_ms, cursor));
        assert forall|row: StoredRow|
            filters_admit(filters@, row) <==> in_history_window(from_ms, to_ms, cursor, row) by {
            lemma_history_filters_select_window(from_ms, to_ms, cursor, row);
        }
    }
    HistoryQueryPlan { filters, fetch_limit: fetch_limit(limit) }
}

/// A reading carries its row's id and sensor values unchanged, and exists
/// exactly when the row's recording time can be written as RFC 3339 text,
/// which it then holds.
pub proof fn lemma_reading_keeps_row_values(row: StoredRow)
    ensures
        spec_reading_of_row(row) is Some <==> rfc3339_text_of_unix_nanos(
            unix_nanos_of_millis(row.recorded_at_ms),
        ) is Some,
        spec_reading_of_row(row) matches Some(v) ==> {
            &&& v.id == row.id
            &&& v.temperature == row.temperature
            &&& v.humidity == row.humidity
            &&& v.wind_speed == row.wind_speed
            &&& Some(v.recorded_at) == rfc3339_text_of_unix_nanos(
                unix_nanos_of_millis(row.recorded_at_ms),
            )
        },
{
}

/// The ids of `rows` strictly decrease, as the history query orders them.
pub open spec fn ids_strictly_decreasing(rows: Seq<StoredRow>) -> bool {
    forall|i: int, j: int| 0 <= i < j < rows.len() ==> rows[i].id > rows[j].id
}

/// A row meets the conditions of a planned history query exactly when it
/// lies in the requested window: at or after `from`, before `to`, and below
/// the cursor, each where it is given.
pub proof fn lemma_history_filters_select_window(
    from_ms: Option<i64>,
    to_ms: Option<i64>,
    cursor: Option<i64>,
    row: StoredRow,
)
    ensures
        filters_admit(spec_history_filters(from_ms, to_ms, cursor), row) <==> in_history_window(
            from_ms,
            to_ms,
            cursor,
            row,
        ),
{
    let filters = spec_history_filters(from_ms, to_ms, cursor);
    if in_history_window(from_ms, to_ms, cursor, row) {
        assert forall|i: int| 0 <= i < filters.len() implies (#[trigger] filters[i]).admits(row) by {
            let f = filters[i];
            match f {
                HistoryFilter::RecordedFrom(v) => {
                    assert(from_ms == Some(v));
                },
                HistoryFilter::RecordedBefore(v) => {
                    assert(to_ms == Some(v));
                },
                HistoryFilter::IdBelow(v) => {
                    assert(cursor == Some(v));
                },
            }
        }
    }
    if filters_admit(filters, row) {
        if let Some(f) = from_ms {
            assert(filters[0] == HistoryFilter::RecordedFrom(f));
        }
        if let Some(t) = to_ms {
            let k: int = if from_ms is Some { 1 } else { 0 };
            assert(filters[k] == HistoryFilter::RecordedBefore(t));
        }
        if let Some(c) = cursor {
            let k = filters.len() - 1;
            assert(filters[k] == HistoryFilter::IdBelow(c));
        }
    }
}

/// When the fetched rows are no more than the query asked for, a page never
/// holds more readings than its limit.
pub proof fn lemma_page_within_limit(n: nat, limit: u32)
    requires
        n <= spec_fetch_limit(limit),
    ensures
        page_len(n, limit) <= limit,
{
}

/// Paging continues where the previous page stopped. Let `rows` be what a
/// history query fetched, newest first, every row meeting its conditions,
/// and let the page announce the cursor `c`. The query for the next page,
/// with the same window and the cursor `c`, admits exactly the rows that
/// the first query admits and whose id is below `c`; among the fetched rows
/// it rejects every row the page returned and admits the rest.
pub proof fn lemma_next_page_resumes(
    from_ms: Option<i64>,
    to_ms: Option<i64>,
    cursor: Option<i64>,
    limit: u32,
    rows: Seq<StoredRow>,
    row: StoredRow,
)
    requires
        ids_strictly_decreasing(rows),
        forall|i: int|
            0 <= i < rows.len() ==> filters_admit(
                spec_history_filters(from_ms, to_ms, cursor),
                #[trigger] rows[i],
            ),
        next_cursor_of(rows, limit) is Some,
    ensures
        ({
            let c = next_cursor_of(rows, limit)->0;
            let first = spec_history_filters(from_ms, to_ms, cursor);
            let next = spec_history_filters(from_ms, to_ms, Some(c));
            &&& filters_admit(next, row) <==> (filters_admit(first, row) && row.id < c)
            &&& forall|i: int|
                0 <= i < rows.len() ==> (filters_admit(next, #[trigger] rows[i]) <==> i >= page_len(
                    rows.len(),
                    limit,
                ))
        }),
{
    let c = next_cursor_of(rows, limit)->0;
    let first = spec_history_filters(from_ms, to_ms, cursor);
    let next = spec_history_filters(from_ms, to_ms, Some(c));
    let last_kept = rows.len() - 2;
    assert(rows[last_kept].id == c);
    lemma_history_filters_select_window(from_ms, to_ms, cursor, rows[last_kept]);
    lemma_history_filters_select_window(from_ms, to_ms, Some(c), row);
    lemma_history_filters_select_window(from_ms, to_ms, cursor, row);
    assert forall|i: int| 0 <= i < rows.len() implies (filters_admit(next, #[trigger] rows[i])
        <==> i >= page_len(rows.len(), limit)) by {
        lemma_history_filters_select_window(from_ms, to_ms, Some(c), rows[i]);
        lemma_history_filters_select_window(from_ms, to_ms, cursor, rows[i]);
        if i < last_kept {
            assert(rows[i].id > rows[last_kept].id);
        }
        if i > last_kept {
            assert(rows[last_kept].id > rows[i].id);
        }
    }
}

} // verus!
