//! Period-aligned time-series aggregation for personal activity logs.
//!
//! The engine turns sparse, per-source event aggregates into dense,
//! gap-filled daily and weekly series aligned to a canonical bucket list,
//! classifies paired progress indicators into mutually exclusive
//! categories, and zip-merges independently computed series into
//! composite records.

mod classify;
mod date;
mod dense;
mod merge;
mod models;
mod period;
mod rollover;
mod sparse;
mod summary;
mod tz;
mod visits;

pub use classify::{
    CardState, Category, PassageRow, aggregate_book_stats, classify, progress_event,
};
pub use date::Date;
pub use dense::{
    DayStats, DenseRecord, MinutesRecord, WeekStats, build_day_series, build_dense_series,
    build_time_series, build_week_series,
};
pub use merge::{
    FaithDayStats, FaithTodayStats, FaithWeekStats, merge_daily, merge_weekly, try_merge_daily,
    try_merge_weekly,
};
pub use models::{
    AggregateStats, BibleStats, BookStats, ErrorResponse, HealthCheck, get_bible_stats,
};
pub use period::{BucketPeriod, WindowKind, generate_bucket_period, last_12_weeks, last_30_days};
pub use rollover::{bucket_date, day_key, week_start_date, week_start_key};
pub use sparse::SparseSeries;
pub use summary::{
    DailyStats, DailySummary, FaithDailyStats, FaithDailySummary, FaithWeeklyStats,
    FaithWeeklySummary, WeeklyStats, WeeklySummary, get_faith_daily_stats, get_faith_weekly_stats,
};
pub use tz::parse_iso8601_timestamp;
pub use visits::{
    PlaceStats, VisitItem, get_last_12_weeks_stats, get_top_places_last_6_months, place_totals,
};
