use market_view::quote::{QuoteRecord, QuoteSeries};
use market_view::requests::{classify, get_history, FetchError, ProviderFailure};
use market_view::storage::{fetch_window, FetchWindow};

fn bar(timestamp: u64) -> QuoteRecord {
    QuoteRecord {
        timestamp,
        open: 10.0f64.to_bits(),
        high: 12.5f64.to_bits(),
        low: 9.75f64.to_bits(),
        close: 11.0f64.to_bits(),
        volume: 42,
    }
}

#[test]
fn ascending_bars_make_a_series() {
    let bars = vec![bar(1), bar(2), bar(10), bar(11)];
    let series = QuoteSeries::new(bars.clone()).unwrap();
    assert_eq!(series.len(), 4);
    assert_eq!(series.records(), &bars);
}

#[test]
fn empty_and_single_bar_series_are_accepted() {
    assert_eq!(QuoteSeries::new(vec![]).unwrap().len(), 0);
    let one = QuoteSeries::new(vec![bar(5)]).unwrap();
    assert_eq!(one.records(), &vec![bar(5)]);
}

#[test]
fn duplicate_timestamps_are_rejected() {
    assert_eq!(QuoteSeries::new(vec![bar(1), bar(2), bar(2)]), None);
    assert_eq!(QuoteSeries::new(vec![bar(7), bar(7)]), None);
}

#[test]
fn descending_timestamps_are_rejected() {
    assert_eq!(QuoteSeries::new(vec![bar(3), bar(2)]), None);
    assert_eq!(QuoteSeries::new(vec![bar(1), bar(5), bar(4), bar(9)]), None);
    assert_eq!(QuoteSeries::new(vec![bar(1), bar(2), bar(3), bar(0)]), None);
}

#[test]
fn clone_of_a_series_holds_the_same_bars() {
    let series = QuoteSeries::new(vec![bar(1), bar(3)]).unwrap();
    let copy = series.clone();
    assert_eq!(copy, series);
    assert_eq!(copy.records(), series.records());
}

#[test]
fn prices_survive_as_bit_patterns() {
    let record = QuoteRecord {
        timestamp: 1_700_000_000,
        open: 5.12f64.to_bits(),
        high: 5.9f64.to_bits(),
        low: 4.95f64.to_bits(),
        close: 5.5f64.to_bits(),
        volume: 123_456,
    };
    let series = QuoteSeries::new(vec![record]).unwrap();
    let stored = series.records()[0];
    assert_eq!(f64::from_bits(stored.open), 5.12);
    assert_eq!(f64::from_bits(stored.high), 5.9);
    assert_eq!(f64::from_bits(stored.low), 4.95);
    assert_eq!(f64::from_bits(stored.close), 5.5);
    assert_eq!(stored.volume, 123_456);
    assert_eq!(stored.timestamp, 1_700_000_000);
}

#[test]
fn provider_failures_fall_into_three_classes() {
    assert_eq!(classify(ProviderFailure::ConnectionFailed), FetchError::Network);
    assert_eq!(classify(ProviderFailure::BuilderFailed), FetchError::Network);
    assert_eq!(classify(ProviderFailure::FetchFailed), FetchError::Provider);
    assert_eq!(classify(ProviderFailure::EmptyDataSet), FetchError::Provider);
    assert_eq!(classify(ProviderFailure::DeserializeFailed), FetchError::Parse);
    assert_eq!(classify(ProviderFailure::InvalidJson), FetchError::Parse);
    assert_eq!(classify(ProviderFailure::DataInconsistency), FetchError::Parse);
}

#[test]
fn history_of_ascending_bars_is_the_series() {
    let bars = vec![bar(100), bar(200), bar(300)];
    let outcome = get_history(Ok(bars.clone()));
    assert_eq!(outcome, Ok(QuoteSeries::new(bars).unwrap()));
}

#[test]
fn history_without_bars_is_a_provider_error() {
    assert_eq!(get_history(Ok(vec![])), Err(FetchError::Provider));
}

#[test]
fn history_out_of_order_is_a_parse_error() {
    assert_eq!(get_history(Ok(vec![bar(2), bar(1)])), Err(FetchError::Parse));
    assert_eq!(get_history(Ok(vec![bar(1), bar(1)])), Err(FetchError::Parse));
}

#[test]
fn history_of_a_failure_is_its_class() {
    assert_eq!(get_history(Err(ProviderFailure::ConnectionFailed)), Err(FetchError::Network));
    assert_eq!(get_history(Err(ProviderFailure::FetchFailed)), Err(FetchError::Provider));
    assert_eq!(get_history(Err(ProviderFailure::EmptyDataSet)), Err(FetchError::Provider));
    assert_eq!(get_history(Err(ProviderFailure::InvalidJson)), Err(FetchError::Parse));
    assert_eq!(get_history(Err(ProviderFailure::DeserializeFailed)), Err(FetchError::Parse));
    assert_eq!(get_history(Err(ProviderFailure::DataInconsistency)), Err(FetchError::Parse));
    assert_eq!(get_history(Err(ProviderFailure::BuilderFailed)), Err(FetchError::Network));
}

#[test]
fn window_ends_now_and_is_as_wide_as_the_elapsed_time() {
    assert_eq!(fetch_window(1_000, 400), FetchWindow { start: 600, end: 1_000 });
    assert_eq!(fetch_window(1_000, 0), FetchWindow { start: 1_000, end: 1_000 });
    assert_eq!(fetch_window(1_000, 1_000), FetchWindow { start: 0, end: 1_000 });
    assert_eq!(
        fetch_window(1_700_090_000, 90_000),
        FetchWindow { start: 1_700_000_000, end: 1_700_090_000 }
    );
}

#[test]
fn window_does_not_reach_before_the_epoch() {
    assert_eq!(fetch_window(1_000, 1_001), FetchWindow { start: 0, end: 1_000 });
    assert_eq!(fetch_window(0, u64::MAX), FetchWindow { start: 0, end: 0 });
    assert_eq!(fetch_window(u64::MAX, u64::MAX), FetchWindow { start: 0, end: u64::MAX });
}
