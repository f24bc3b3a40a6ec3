use std::collections::BTreeMap;

use quote_scraper::decimal::Decimal;
use quote_scraper::exchange::Exchange;
use quote_scraper::normalize::Quote;
use quote_scraper::sink::{quote_writes, Metric, SeriesId, SeriesWrite, Side};

fn d(mantissa: u64, scale: u32) -> Decimal {
    Decimal { mantissa, scale }
}

fn sample(t: u64) -> Quote {
    Quote {
        exchange: Exchange::Kraken,
        observed_at: t,
        bid_price: d(1005, 1),
        bid_size: d(2, 0),
        ask_price: d(1010, 1),
        ask_size: d(3, 0),
    }
}

#[test]
fn series_key_pattern() {
    let id = SeriesId { exchange: Exchange::Kraken, side: Side::Buy, metric: Metric::Price };
    assert_eq!(id.key(), b"KRAKEN:XBTUSD:QUOTE:BUY:PRICE".to_vec());
    let id = SeriesId { exchange: Exchange::Htx, side: Side::Sell, metric: Metric::Vol };
    assert_eq!(id.key(), b"HTX:XBTUSD:QUOTE:SELL:VOL".to_vec());
}

#[test]
fn series_labels() {
    let id = SeriesId { exchange: Exchange::Mexc, side: Side::Sell, metric: Metric::Price };
    assert_eq!(
        id.labels(),
        vec![("EXCHANGE", "MEXC"), ("SIDE", "SELL"), ("SUB", "QUOTE"), ("GROUP", "PRICE")]
    );
}

#[test]
fn quote_gives_four_writes_at_its_time() {
    let t = 1700000000000;
    let w = quote_writes(&sample(t));
    let series = |side, metric| SeriesId { exchange: Exchange::Kraken, side, metric };
    assert_eq!(
        w,
        vec![
            SeriesWrite { series: series(Side::Buy, Metric::Price), timestamp: t, value: d(1005, 1) },
            SeriesWrite { series: series(Side::Buy, Metric::Vol), timestamp: t, value: d(2, 0) },
            SeriesWrite { series: series(Side::Sell, Metric::Price), timestamp: t, value: d(1010, 1) },
            SeriesWrite { series: series(Side::Sell, Metric::Vol), timestamp: t, value: d(3, 0) },
        ]
    );
}

#[test]
fn same_quote_twice_keeps_one_point_per_series() {
    let mut store: BTreeMap<Vec<u8>, BTreeMap<u64, Decimal>> = BTreeMap::new();
    let q = sample(42);
    for _ in 0..2 {
        for w in quote_writes(&q) {
            store.entry(w.series.key()).or_default().insert(w.timestamp, w.value);
        }
    }
    assert_eq!(store.len(), 4);
    for points in store.values() {
        assert_eq!(points.len(), 1);
    }
    assert_eq!(store[&b"KRAKEN:XBTUSD:QUOTE:SELL:VOL".to_vec()][&42], d(3, 0));
}

#[test]
fn later_quote_at_same_time_wins_in_every_series() {
    let mut store: BTreeMap<Vec<u8>, BTreeMap<u64, Decimal>> = BTreeMap::new();
    let first = sample(42);
    let second = Quote { bid_price: d(1, 0), bid_size: d(2, 1), ask_price: d(3, 0), ask_size: d(4, 1), ..sample(42) };
    for q in [first, second] {
        for w in quote_writes(&q) {
            store.entry(w.series.key()).or_default().insert(w.timestamp, w.value);
        }
    }
    for w in quote_writes(&second) {
        let points = &store[&w.series.key()];
        assert_eq!(points.len(), 1);
        assert_eq!(points[&42], w.value);
    }
}
