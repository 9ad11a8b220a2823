use mortimeriot::server::db::LATEST_SQL;
use mortimeriot::server::db::HistoryQueryPlan;
use mortimeriot::server::db::{
    fetch_limit, history_page, latest_reading, millis_to_unix_nanos, plan_history_query,
    reading_from_formatted, recorded_at_ms_of, row_to_reading, HistoryFilter, StoredRow,
    HISTORY_ORDER_SQL, HISTORY_SELECT_SQL,
};
use mortimeriot::server::Error;

fn row(id: i64, recorded_at_ms: i64) -> StoredRow {
    StoredRow {
        id,
        temperature: 20.1f64.to_bits(),
        humidity: 45.4f64.to_bits(),
        wind_speed: 12.3f64.to_bits(),
        recorded_at_ms,
    }
}

const JULY_21_NOON_MS: i64 = 1_784_635_200_000;

#[test]
fn millis_become_nanos() {
    assert_eq!(millis_to_unix_nanos(1_500), 1_500_000_000);
    assert_eq!(millis_to_unix_nanos(-2), -2_000_000);
    assert_eq!(millis_to_unix_nanos(i64::MAX), (i64::MAX as i128) * 1_000_000);
}

#[test]
fn clock_millis_fit_or_are_refused() {
    assert_eq!(recorded_at_ms_of(1_784_635_200_000).unwrap(), 1_784_635_200_000);
    assert_eq!(recorded_at_ms_of(i64::MAX as u128).unwrap(), i64::MAX);
    assert!(matches!(recorded_at_ms_of(i64::MAX as u128 + 1), Err(Error::InvalidTimestamp)));
}

#[test]
fn row_becomes_reading_with_rfc3339_time() {
    let reading = row_to_reading(row(10, JULY_21_NOON_MS)).unwrap();
    assert_eq!(reading.id, 10);
    assert_eq!(f64::from_bits(reading.temperature), 20.1);
    assert_eq!(f64::from_bits(reading.humidity), 45.4);
    assert_eq!(f64::from_bits(reading.wind_speed), 12.3);
    assert_eq!(reading.recorded_at, "2026-07-21T12:00:00Z");
}

#[test]
fn row_time_keeps_milliseconds() {
    let reading = row_to_reading(row(1, JULY_21_NOON_MS + 123)).unwrap();
    assert_eq!(reading.recorded_at, "2026-07-21T12:00:00.123Z");
    let epoch = row_to_reading(row(2, 0)).unwrap();
    assert_eq!(epoch.recorded_at, "1970-01-01T00:00:00Z");
}

#[test]
fn row_time_out_of_range_is_invalid_timestamp() {
    // Around the year -1200: outside what RFC 3339 text can show.
    assert!(matches!(row_to_reading(row(3, -100_000_000_000_000)), Err(Error::InvalidTimestamp)));
    assert!(matches!(row_to_reading(row(4, i64::MAX)), Err(Error::InvalidTimestamp)));
}

#[test]
fn formatted_time_is_taken_as_given() {
    let reading = reading_from_formatted(row(7, 5), Some("then".to_owned())).unwrap();
    assert_eq!(reading.recorded_at, "then");
    assert_eq!(reading.id, 7);
    assert!(matches!(reading_from_formatted(row(7, 5), None), Err(Error::InvalidTimestamp)));
}

#[test]
fn latest_of_no_row_is_none() {
    assert!(latest_reading(None).unwrap().is_none());
    let latest = latest_reading(Some(row(9, JULY_21_NOON_MS))).unwrap().unwrap();
    assert_eq!(latest.id, 9);
    assert!(matches!(latest_reading(Some(row(9, i64::MIN))), Err(Error::InvalidTimestamp)));
}

#[test]
fn page_of_fewer_rows_than_limit_has_no_cursor() {
    // Two readings, newest first, with room for ten.
    let rows = vec![row(2, JULY_21_NOON_MS + 1), row(1, JULY_21_NOON_MS)];
    let (items, cursor) = history_page(&rows, 10).unwrap();
    assert_eq!(items.len(), 2);
    assert_eq!(items[0].id, 2);
    assert_eq!(items[1].id, 1);
    assert!(cursor.is_none());
}

#[test]
fn page_drops_extra_row_and_announces_cursor() {
    let rows = vec![row(30, 3), row(20, 2), row(10, 1)];
    let (items, cursor) = history_page(&rows, 2).unwrap();
    assert_eq!(items.iter().map(|r| r.id).collect::<Vec<_>>(), vec![30, 20]);
    assert_eq!(cursor, Some(20));
}

#[test]
fn page_of_exactly_limit_rows_has_no_cursor() {
    let rows = vec![row(30, 3), row(20, 2)];
    let (items, cursor) = history_page(&rows, 2).unwrap();
    assert_eq!(items.len(), 2);
    assert_eq!(cursor, None);
}

#[test]
fn page_with_limit_zero_is_empty_without_cursor() {
    let rows = vec![row(30, 3)];
    let (items, cursor) = history_page(&rows, 0).unwrap();
    assert!(items.is_empty());
    assert_eq!(cursor, None);
}

#[test]
fn page_with_unreadable_row_fails() {
    let rows = vec![row(30, 3), row(20, i64::MAX)];
    assert!(matches!(history_page(&rows, 5), Err(Error::InvalidTimestamp)));
}

#[test]
fn fetch_limit_asks_one_more_and_saturates() {
    assert_eq!(fetch_limit(0), 1);
    assert_eq!(fetch_limit(1000), 1001);
    assert_eq!(fetch_limit(u32::MAX), u32::MAX);
}

#[test]
fn plan_lists_given_filters_in_order() {
    let plan = plan_history_query(Some(100), Some(200), Some(7), 50);
    assert_eq!(
        plan.filters,
        vec![
            HistoryFilter::RecordedFrom(100),
            HistoryFilter::RecordedBefore(200),
            HistoryFilter::IdBelow(7)
        ]
    );
    assert_eq!(plan.fetch_limit, 51);
    let sql: Vec<&str> = plan.filters.iter().map(|f| f.sql()).collect();
    assert_eq!(sql, vec![" AND recorded_at_ms >= ", " AND recorded_at_ms < ", " AND id < "]);
    let bounds: Vec<i64> = plan.filters.iter().map(|f| f.bound()).collect();
    assert_eq!(bounds, vec![100, 200, 7]);

    let cursor_only = plan_history_query(None, None, Some(3), 10);
    assert_eq!(cursor_only.filters, vec![HistoryFilter::IdBelow(3)]);
    assert!(plan_history_query(None, None, None, 10).filters.is_empty());
}

#[test]
fn history_sql_frame() {
    assert!(HISTORY_SELECT_SQL.ends_with("FROM weather_measurements WHERE 1=1"));
    assert_eq!(HISTORY_ORDER_SQL, " ORDER BY id DESC LIMIT ");
}

#[test]
fn next_page_resumes_after_cursor() {
    // Five readings, newest first; pages of two.
    let all: Vec<StoredRow> = (1..=5).rev().map(|id| row(id, id * 1000)).collect();
    let admitted = |plan: &HistoryQueryPlan, r: &StoredRow| {
        plan.filters.iter().all(|f| match f {
            HistoryFilter::RecordedFrom(v) => r.recorded_at_ms >= *v,
            HistoryFilter::RecordedBefore(v) => r.recorded_at_ms < *v,
            HistoryFilter::IdBelow(v) => r.id < *v,
        })
    };
    let mut cursor = None;
    let mut seen = Vec::new();
    loop {
        let plan = plan_history_query(None, None, cursor, 2);
        let rows: Vec<StoredRow> = all
            .iter()
            .filter(|r| admitted(&plan, r))
            .take(plan.fetch_limit as usize)
            .copied()
            .collect();
        let (items, next) = history_page(&rows, 2).unwrap();
        seen.extend(items.iter().map(|r| r.id));
        match next {
            Some(c) => cursor = Some(c),
            None => break,
        }
    }
    assert_eq!(seen, vec![5, 4, 3, 2, 1]);
}

#[test]
fn paging_a_window_lists_each_matching_row_once() {
    // Ten readings, one per second, newest first; ask for seconds 2..8 in pages of 3.
    let table: Vec<StoredRow> = (1..=10).rev().map(|id| row(id, id * 1000)).collect();
    let admitted = |plan: &HistoryQueryPlan, r: &StoredRow| {
        plan.filters.iter().all(|f| match f {
            HistoryFilter::RecordedFrom(v) => r.recorded_at_ms >= *v,
            HistoryFilter::RecordedBefore(v) => r.recorded_at_ms < *v,
            HistoryFilter::IdBelow(v) => r.id < *v,
        })
    };
    let mut cursor = None;
    let mut pages = Vec::new();
    loop {
        let plan = plan_history_query(Some(2000), Some(8000), cursor, 3);
        let fetched: Vec<StoredRow> = table
            .iter()
            .filter(|r| admitted(&plan, r))
            .take(plan.fetch_limit as usize)
            .copied()
            .collect();
        let (items, next) = history_page(&fetched, 3).unwrap();
        assert!(items.len() <= 3);
        pages.push((items.iter().map(|r| r.id).collect::<Vec<_>>(), next));
        match next {
            Some(c) => cursor = Some(c),
            None => break,
        }
    }
    assert_eq!(
        pages,
        vec![(vec![7, 6, 5], Some(5)), (vec![4, 3, 2], None)]
    );
}

#[test]
fn latest_query_sql_matches_first_history_row() {
    assert!(LATEST_SQL.starts_with(
        "SELECT id, temperature_c, humidity_percent, wind_speed, recorded_at_ms FROM weather_measurements"
    ));
    assert!(LATEST_SQL.ends_with("ORDER BY id DESC LIMIT 1"));
    let rows = vec![row(8, JULY_21_NOON_MS + 5), row(7, JULY_21_NOON_MS)];
    let latest = latest_reading(Some(rows[0])).unwrap().unwrap();
    let (page, _) = history_page(&rows, 1).unwrap();
    assert_eq!(page.len(), 1);
    assert_eq!(page[0].id, latest.id);
    assert_eq!(page[0].recorded_at, latest.recorded_at);
    assert_eq!(page[0].temperature, latest.temperature);
}
