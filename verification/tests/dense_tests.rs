use faithstats::{
    build_day_series, build_dense_series, build_time_series, BucketPeriod, Date, SparseSeries,
};

fn jan_2025(day: u32) -> Date {
    Date { year: 2025, month: 1, day }
}

fn five_day_period() -> BucketPeriod {
    BucketPeriod {
        start_ms: 0,
        end_ms: 1,
        dates: vec![jan_2025(1), jan_2025(2), jan_2025(3), jan_2025(4), jan_2025(5)],
    }
}

#[test]
fn test_dense_series_deltas_and_cumulative() {
    // Sparse input {2025-01-02: 5, 2025-01-04: -2} over the five-day
    // period 2025-01-01 .. 2025-01-05.
    let period = five_day_period();
    let mut sparse = SparseSeries::new();
    sparse.add_to(jan_2025(2), 5);
    sparse.add_to(jan_2025(4), -2);

    let dense = build_dense_series(&period, &sparse);
    assert_eq!(dense.len(), 5);
    let deltas: Vec<i64> = dense.iter().map(|r| r.delta).collect();
    let cumulative: Vec<i64> = dense.iter().map(|r| r.cumulative).collect();
    assert_eq!(deltas, vec![0, 5, 0, -2, 0]);
    assert_eq!(cumulative, vec![0, 5, 5, 3, 3]);
    for i in 0..5 {
        assert_eq!(dense[i].date, period.dates[i]);
    }
}

#[test]
fn test_dense_series_ignores_foreign_keys() {
    let period = five_day_period();
    let mut sparse = SparseSeries::new();
    sparse.add_to(jan_2025(2), 5);
    // An entry outside the canonical key list is dead input.
    sparse.add_to(Date { year: 2025, month: 2, day: 10 }, 99);

    let dense = build_dense_series(&period, &sparse);
    assert_eq!(dense.len(), 5);
    let deltas: Vec<i64> = dense.iter().map(|r| r.delta).collect();
    assert_eq!(deltas, vec![0, 5, 0, 0, 0]);
}

#[test]
fn test_sparse_series_accumulates() {
    let mut sparse = SparseSeries::new();
    sparse.add_to(jan_2025(3), 10);
    sparse.add_to(jan_2025(3), 7);
    assert_eq!(sparse.get(&jan_2025(3)), 17);
    assert_eq!(sparse.get(&jan_2025(4)), 0);
    assert_eq!(sparse.len(), 1);
}

#[test]
fn test_day_series_zero_fills_and_accumulates() {
    let period = five_day_period();
    let mut time = SparseSeries::new();
    time.add_to(jan_2025(2), 600000);
    let mut matured = SparseSeries::new();
    matured.add_to(jan_2025(2), 3);
    matured.add_to(jan_2025(5), 1);
    let mut lost = SparseSeries::new();
    lost.add_to(jan_2025(4), 2);

    let days = build_day_series(&period, &time, &matured, &lost);
    assert_eq!(days.len(), 5);
    assert_eq!(days[0].time_ms, 0);
    assert_eq!(days[1].time_ms, 600000);
    assert_eq!(days[1].matured_passages, 3);
    assert_eq!(days[3].lost_passages, 2);
    let cumulative: Vec<i64> = days.iter().map(|d| d.cumulative_passages).collect();
    assert_eq!(cumulative, vec![0, 3, 3, 1, 2]);
}

#[test]
fn test_week_stats_structure() {
    let stats = faithstats::WeekStats {
        week_start: Date { year: 2025, month: 10, day: 19 },
        time_ms: 7230000,
        matured_passages: 0,
        lost_passages: 0,
        cumulative_passages: 0,
    };
    assert_eq!(stats.week_start.key_string(), "2025-10-19");
    assert_eq!(stats.time_ms as f64 / 60000.0, 120.5);
}

#[test]
fn test_time_series_zero_fills() {
    let period = five_day_period();
    let mut time = SparseSeries::new();
    time.add_to(jan_2025(5), 1800000);
    let series = build_time_series(&period, &time);
    assert_eq!(series.len(), 5);
    let values: Vec<i64> = series.iter().map(|r| r.time_ms).collect();
    assert_eq!(values, vec![0, 0, 0, 0, 1800000]);
}
