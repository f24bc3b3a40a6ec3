use quote_scraper::bootstrap::get_websocket_endpoint;
use quote_scraper::clock::{get_current_timestamp, millis_or_zero};

#[test]
fn bootstrap_response_gives_url_and_interval() {
    let body = br#"{"code":"200000","data":{"token":"abc123","instanceServers":[{"endpoint":"wss://ws-api-spot.kucoin.com/","encrypt":true,"protocol":"websocket","pingInterval":18000,"pingTimeout":10000}]}}"#;
    let e = get_websocket_endpoint(body, 1700000000000).expect("an endpoint");
    assert_eq!(e.url, b"wss://ws-api-spot.kucoin.com/?token=abc123&connectId=1700000000000".to_vec());
    assert_eq!(e.ping_interval_ms, 18000);
}

#[test]
fn bootstrap_response_without_token_gives_none() {
    let body = br#"{"code":"200000","data":{"instanceServers":[{"endpoint":"wss://x/","pingInterval":18000}]}}"#;
    assert!(get_websocket_endpoint(body, 1).is_none());
    let body = br#"{"code":"200000","data":{"token":"t","instanceServers":[]}}"#;
    assert!(get_websocket_endpoint(body, 1).is_none());
    assert!(get_websocket_endpoint(b"<html>", 1).is_none());
}

#[test]
fn clock_reads_milliseconds_since_epoch() {
    let t = get_current_timestamp();
    assert!(t > 1_600_000_000_000);
}

#[test]
fn millis_conversion_saturates_and_zeroes() {
    assert_eq!(millis_or_zero(None), 0);
    assert_eq!(millis_or_zero(Some(1_700_000_000_123)), 1_700_000_000_123);
    assert_eq!(millis_or_zero(Some(u64::MAX as u128)), u64::MAX);
    assert_eq!(millis_or_zero(Some(u64::MAX as u128 + 1)), u64::MAX);
}

#[test]
fn bootstrap_response_must_be_well_formed() {
    let bodies: [&[u8]; 6] = [
        br#"{"data":{"instanceServers":[{"endpoint":"w","pingInterval":1}],"token":"T"}}"#,
        br#"{"data":{"token":"T","instanceServers":[{"endpoint":"w","pingInterval":1,"pingTimeout":2}]}}"#,
        br#"{"code":"200000","data":{"token":"T","instanceServers":[{"endpoint":"w","pingInterval":1}]}}"#,
        br#"{"code":"200000","data":{"token":"T","instanceServers":[{"endpoint":"w","pingInterval":"18000","pingTimeout":2}]}}"#,
        br#"{"code":"200000","data":{"token":"T","instanceServers":[{"endpoint":"w","pingInterval":18000.0,"pingTimeout":2}]}}"#,
        br#"{"code":"200000","data":{"token":"T","instanceServers":[{"endpoint":"w","pingInterval":1,"pingTimeout":2},{"endpoint":"x"}]}}"#,
    ];
    for body in bodies {
        assert!(get_websocket_endpoint(body, 1).is_none(), "{}", String::from_utf8_lossy(body));
    }
    let body = br#"{"code":200000,"data":{"token":"T","instanceServers":[{"endpoint":"w","pingInterval":1,"pingTimeout":2}]}}"#;
    assert!(get_websocket_endpoint(body, 1).is_none());
    let body = br#"{"code":"200000","data":{"token":"T","instanceServers":[{"endpoint":"w","pingInterval":1,"pingTimeout":2}]}}"#;
    let e = get_websocket_endpoint(body, 5).expect("an endpoint");
    assert_eq!(e.url, b"w?token=T&connectId=5".to_vec());
    assert_eq!(e.ping_interval_ms, 1);
}
