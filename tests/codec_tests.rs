use std::io::Write;

use quote_scraper::codec::{classify, decode, pong_reply, subscribe_request, Frame, Inbound};
use quote_scraper::exchange::Exchange;
use quote_scraper::json::Json;

fn message(exchange: Exchange, text: &str) -> Json {
    decode(exchange, Frame::Text(text.as_bytes().to_vec())).expect("a JSON message")
}

fn gzip(text: &str) -> Vec<u8> {
    let mut encoder = flate2::write::GzEncoder::new(Vec::new(), flate2::Compression::default());
    encoder.write_all(text.as_bytes()).unwrap();
    encoder.finish().unwrap()
}

#[test]
fn kraken_subscribe_request() {
    assert_eq!(
        subscribe_request(Exchange::Kraken, 0),
        br#"{"method":"subscribe","params":{"channel":"ticker","symbol":["BTC/USD"],"event_trigger":"bbo","snapshot":true}}"#.to_vec()
    );
}

#[test]
fn gateio_subscribe_request_carries_seconds() {
    assert_eq!(
        subscribe_request(Exchange::Gateio, 1700000000999),
        br#"{"time":1700000000,"channel":"spot.tickers","event":"subscribe","payload":["BTC_USDT"]}"#.to_vec()
    );
}

#[test]
fn kucoin_subscribe_request_carries_milliseconds() {
    assert_eq!(
        subscribe_request(Exchange::Kucoin, 1700000000999),
        br#"{"id":1700000000999,"type":"subscribe","topic":"/market/ticker:BTC-USDT","response":true}"#.to_vec()
    );
}

#[test]
fn htx_ping_is_answered_with_same_timestamp() {
    let m = message(Exchange::Htx, r#"{"ping":1492420473027}"#);
    assert_eq!(classify(Exchange::Htx, &m, None), Inbound::InbandPing);
    assert_eq!(pong_reply(Exchange::Htx, &m), Some(br#"{"pong":1492420473027}"#.to_vec()));
}

#[test]
fn mexc_ping_method_is_answered_with_pong_method() {
    let m = message(Exchange::Mexc, r#"{"method":"PING"}"#);
    assert_eq!(classify(Exchange::Mexc, &m, None), Inbound::InbandPing);
    assert_eq!(pong_reply(Exchange::Mexc, &m), Some(br#"{"method":"PONG"}"#.to_vec()));
}

#[test]
fn transport_heartbeat_feed_has_no_inband_pong() {
    let m = message(Exchange::Kraken, r#"{"ping":1}"#);
    assert_eq!(pong_reply(Exchange::Kraken, &m), None);
}

#[test]
fn kraken_control_messages() {
    let ack = message(Exchange::Kraken, r#"{"method":"subscribe","result":{"channel":"ticker"},"success":true}"#);
    assert_eq!(classify(Exchange::Kraken, &ack, None), Inbound::Subscribed(None));
    let hb = message(Exchange::Kraken, r#"{"channel":"heartbeat"}"#);
    assert_eq!(classify(Exchange::Kraken, &hb, None), Inbound::Heartbeat);
    let status = message(Exchange::Kraken, r#"{"channel":"status","data":[]}"#);
    assert_eq!(classify(Exchange::Kraken, &status, None), Inbound::Unrecognized);
}

#[test]
fn bitfinex_data_must_match_channel() {
    let ack = message(Exchange::Bitfinex, r#"{"event":"subscribed","channel":"ticker","chanId":42,"symbol":"tBTCUSD"}"#);
    assert_eq!(classify(Exchange::Bitfinex, &ack, None), Inbound::Subscribed(Some(42)));
    let data = message(Exchange::Bitfinex, r#"[42,[1,2,3,4]]"#);
    assert_eq!(classify(Exchange::Bitfinex, &data, None), Inbound::Unrecognized);
    assert_eq!(classify(Exchange::Bitfinex, &data, Some(42)), Inbound::Ticker);
    assert_eq!(classify(Exchange::Bitfinex, &data, Some(7)), Inbound::Unrecognized);
    let hb = message(Exchange::Bitfinex, r#"[42,"hb"]"#);
    assert_eq!(classify(Exchange::Bitfinex, &hb, Some(42)), Inbound::Heartbeat);
}

#[test]
fn gateio_and_mexc_acknowledgements() {
    let ack = message(Exchange::Gateio, r#"{"time":1,"channel":"spot.tickers","event":"subscribe","result":{"status":"success"}}"#);
    assert_eq!(classify(Exchange::Gateio, &ack, None), Inbound::Subscribed(None));
    let other = message(Exchange::Gateio, r#"{"time":1,"channel":"spot.pong","event":"update"}"#);
    assert_eq!(classify(Exchange::Gateio, &other, None), Inbound::Unrecognized);
    let ok = message(Exchange::Mexc, r#"{"id":1,"code":0,"msg":"spot@public.bookTicker.v3.api@BTCUSDT"}"#);
    assert_eq!(classify(Exchange::Mexc, &ok, None), Inbound::Subscribed(None));
    let err = message(Exchange::Mexc, r#"{"id":1,"code":100,"msg":"bad"}"#);
    assert_eq!(classify(Exchange::Mexc, &err, None), Inbound::ExchangeError);
}

#[test]
fn htx_binary_frames_are_gunzipped() {
    let frame = Frame::Binary(gzip(r#"{"ping":77}"#));
    let m = decode(Exchange::Htx, frame).expect("decompressed JSON");
    assert_eq!(pong_reply(Exchange::Htx, &m), Some(br#"{"pong":77}"#.to_vec()));
}

#[test]
fn undecodable_frames_are_dropped() {
    assert!(decode(Exchange::Htx, Frame::Binary(b"not gzip".to_vec())).is_none());
    assert!(decode(Exchange::Kraken, Frame::Binary(gzip("{}"))).is_none());
    assert!(decode(Exchange::Kraken, Frame::Text(b"{not json".to_vec())).is_none());
    assert!(decode(Exchange::Kraken, Frame::Ping(b"x".to_vec())).is_none());
}
