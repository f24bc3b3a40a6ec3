use quote_scraper::codec::{decode, Frame};
use quote_scraper::decimal::Decimal;
use quote_scraper::exchange::Exchange;
use quote_scraper::json::Json;
use quote_scraper::normalize::{normalize, NormalizeError, Quote};

fn d(mantissa: u64, scale: u32) -> Decimal {
    Decimal { mantissa, scale }
}

fn message(exchange: Exchange, text: &str) -> Json {
    decode(exchange, Frame::Text(text.as_bytes().to_vec())).expect("a JSON message")
}

#[test]
fn kraken_ticker_gives_its_four_values() {
    let m = message(
        Exchange::Kraken,
        r#"{"channel":"ticker","type":"update","data":[{"symbol":"BTC/USD","bid":100.5,"bid_qty":2,"ask":101.0,"ask_qty":3,"last":100.7}]}"#,
    );
    assert_eq!(
        normalize(Exchange::Kraken, &m, 1234),
        Ok(Quote {
            exchange: Exchange::Kraken,
            observed_at: 1234,
            bid_price: d(1005, 1),
            bid_size: d(2, 0),
            ask_price: d(1010, 1),
            ask_size: d(3, 0),
        })
    );
}

#[test]
fn bitget_reads_strings_and_record_time() {
    let m = message(
        Exchange::Bitget,
        r#"{"action":"snapshot","arg":{"instType":"SPOT","channel":"ticker","instId":"BTCUSDT"},"data":[{"instId":"BTCUSDT","lastPr":"64000.1","bidPr":"64000","askPr":"64000.2","bidSz":"0.5","askSz":"1.25","ts":"1700000000123"}]}"#,
    );
    assert_eq!(
        normalize(Exchange::Bitget, &m, 7),
        Ok(Quote {
            exchange: Exchange::Bitget,
            observed_at: 1700000000123,
            bid_price: d(64000, 0),
            bid_size: d(5, 1),
            ask_price: d(640002, 1),
            ask_size: d(125, 2),
        })
    );
}

#[test]
fn bybit_uses_last_price_and_splits_volume() {
    let m = message(
        Exchange::Bybit,
        r#"{"topic":"tickers.BTCUSDT","ts":1708270510698,"type":"snapshot","cs":1,"data":{"symbol":"BTCUSDT","lastPrice":"51000.5","volume24h":"10"}}"#,
    );
    assert_eq!(
        normalize(Exchange::Bybit, &m, 7),
        Ok(Quote {
            exchange: Exchange::Bybit,
            observed_at: 1708270510698,
            bid_price: d(510005, 1),
            bid_size: d(5, 0),
            ask_price: d(510005, 1),
            ask_size: d(5, 0),
        })
    );
}

#[test]
fn gateio_splits_odd_volume_exactly() {
    let m = message(
        Exchange::Gateio,
        r#"{"time":1700000000,"channel":"spot.tickers","event":"update","result":{"currency_pair":"BTC_USDT","last":"1","lowest_ask":"42000.5","highest_bid":"42000.1","base_volume":"3"}}"#,
    );
    assert_eq!(
        normalize(Exchange::Gateio, &m, 99),
        Ok(Quote {
            exchange: Exchange::Gateio,
            observed_at: 99,
            bid_price: d(420001, 1),
            bid_size: d(15, 1),
            ask_price: d(420005, 1),
            ask_size: d(15, 1),
        })
    );
}

#[test]
fn htx_single_volume_is_split_evenly() {
    let m = message(
        Exchange::Htx,
        r#"{"ch":"market.btcusdt.ticker","ts":1700000000000,"tick":{"bid":100.5,"ask":101.0,"vol":10}}"#,
    );
    let q = normalize(Exchange::Htx, &m, 1).unwrap();
    assert_eq!(q.bid_size, d(5, 0));
    assert_eq!(q.ask_size, d(5, 0));
    assert_eq!(q.observed_at, 1700000000000);
}

#[test]
fn kucoin_without_time_uses_capture_time() {
    let m = message(
        Exchange::Kucoin,
        r#"{"type":"message","topic":"/market/ticker:BTC-USDT","subject":"trade.ticker","data":{"sequence":"1","price":"1","size":"1","bestAsk":"43000.2","bestAskSize":"0.1","bestBid":"43000.1","bestBidSize":"0.2"}}"#,
    );
    assert_eq!(
        normalize(Exchange::Kucoin, &m, 5),
        Ok(Quote {
            exchange: Exchange::Kucoin,
            observed_at: 5,
            bid_price: d(430001, 1),
            bid_size: d(2, 1),
            ask_price: d(430002, 1),
            ask_size: d(1, 1),
        })
    );
}

#[test]
fn mexc_book_ticker_uses_send_time() {
    let m = message(
        Exchange::Mexc,
        r#"{"channel":"spot@public.bookTicker.v3.api@BTCUSDT","publicbookticker":{"bidprice":"93387.28","bidquantity":"3.73485","askprice":"93387.29","askquantity":"7.669875"},"symbol":"BTCUSDT","sendtime":1736412092433}"#,
    );
    assert_eq!(
        normalize(Exchange::Mexc, &m, 5),
        Ok(Quote {
            exchange: Exchange::Mexc,
            observed_at: 1736412092433,
            bid_price: d(9338728, 2),
            bid_size: d(373485, 5),
            ask_price: d(9338729, 2),
            ask_size: d(7669875, 6),
        })
    );
}

#[test]
fn bitfinex_reads_positions() {
    let m = message(Exchange::Bitfinex, r#"[42,[100.5,2,101,3,-5,-0.01,100.7,10,102,99]]"#);
    assert_eq!(
        normalize(Exchange::Bitfinex, &m, 11),
        Ok(Quote {
            exchange: Exchange::Bitfinex,
            observed_at: 11,
            bid_price: d(1005, 1),
            bid_size: d(2, 0),
            ask_price: d(101, 0),
            ask_size: d(3, 0),
        })
    );
}

#[test]
fn missing_field_is_rejected() {
    let m = message(
        Exchange::Kraken,
        r#"{"channel":"ticker","data":[{"bid":100.5,"bid_qty":2,"ask":101.0}]}"#,
    );
    assert_eq!(normalize(Exchange::Kraken, &m, 1), Err(NormalizeError::MissingField));
}

#[test]
fn missing_record_is_rejected() {
    let m = message(Exchange::Htx, r#"{"ch":"market.btcusdt.ticker","ts":1}"#);
    assert_eq!(normalize(Exchange::Htx, &m, 1), Err(NormalizeError::MissingField));
    let m = message(Exchange::Kraken, r#"{"channel":"ticker","data":[]}"#);
    assert_eq!(normalize(Exchange::Kraken, &m, 1), Err(NormalizeError::MissingField));
}

#[test]
fn non_numeric_string_is_rejected() {
    let m = message(
        Exchange::Bitget,
        r#"{"action":"update","arg":{},"data":[{"bidPr":"abc","askPr":"1","bidSz":"1","askSz":"1","ts":"1"}]}"#,
    );
    assert_eq!(normalize(Exchange::Bitget, &m, 1), Err(NormalizeError::NotNumeric));
}

#[test]
fn negative_or_non_scalar_value_is_rejected() {
    let m = message(
        Exchange::Kraken,
        r#"{"channel":"ticker","data":[{"bid":-1,"bid_qty":2,"ask":101.0,"ask_qty":3}]}"#,
    );
    assert_eq!(normalize(Exchange::Kraken, &m, 1), Err(NormalizeError::NotNumeric));
    let m = message(
        Exchange::Kraken,
        r#"{"channel":"ticker","data":[{"bid":[1],"bid_qty":2,"ask":101.0,"ask_qty":3}]}"#,
    );
    assert_eq!(normalize(Exchange::Kraken, &m, 1), Err(NormalizeError::NotNumeric));
}

#[test]
fn exponent_numbers_are_read() {
    let m = message(
        Exchange::Kraken,
        r#"{"channel":"ticker","data":[{"bid":1.5E2,"bid_qty":2e-3,"ask":151,"ask_qty":"3e0"}]}"#,
    );
    let q = normalize(Exchange::Kraken, &m, 1).unwrap();
    assert_eq!(q.bid_price, d(150, 0));
    assert_eq!(q.bid_size, d(2, 3));
    assert_eq!(q.ask_size, d(3, 0));
}
