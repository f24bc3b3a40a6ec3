use vstd::prelude::*;
use vstd::string::StringSliceAdditionalSpecFns;
use crate::exchange::{Exchange, HeartbeatStyle};
use crate::json::{parse_json, parsed_json, Json};
use crate::normalize::{whole, whole_in};

verus! {

/// A websocket frame as read from the transport.
#[derive(Debug)]
pub enum Frame {
    Text(Vec<u8>),
    Binary(Vec<u8>),
    Ping(Vec<u8>),
    Pong(Vec<u8>),
}

/// A frame to send.
#[derive(Debug, PartialEq, Eq)]
pub enum Outbound {
    Text(Vec<u8>),
    Ping(Vec<u8>),
    Pong(Vec<u8>),
}

/// What gunzip makes of `data`: `None` where it is not a gzip stream.
pub uninterp spec fn gunzipped(data: Seq<u8>) -> Option<Seq<u8>>;

/// Relies on flate2's GzDecoder, read to its end: the decompressed bytes,
/// or an error where `data` is not a valid gzip stream.
#[verifier::external_body]
fn gunzip(data: &[u8]) -> (r: Option<Vec<u8>>)
    ensures
        match r {
            Some(v) => gunzipped(data@) == Some(v@),
            None => gunzipped(data@) is None,
        },
{
    let mut out = Vec::new();
    match std::io::Read::read_to_end(&mut flate2::read::GzDecoder::new(data), &mut out) {
        Ok(_) => Some(out),
        Err(_) => None,
    }
}

/// The JSON text a data frame carries: a text frame as it is, a binary
/// frame decompressed where the feed compresses.
pub open spec fn frame_text(exchange: Exchange, frame: Frame) -> Option<Seq<u8>> {
    match frame {
        Frame::Text(t) => Some(t@),
        Frame::Binary(b) => if exchange.spec_compressed() {
            gunzipped(b@)
        } else {
            None
        },
        _ => None,
    }
}

pub fn text_of(exchange: Exchange, frame: Frame) -> (r: Option<Vec<u8>>)
    ensures
        match r {
            Some(v) => frame_text(exchange, frame) == Some(v@),
            None => frame_text(exchange, frame) is None,
        },
{
    match frame {
        Frame::Text(t) => Some(t),
        Frame::Binary(b) => if exchange.compressed() {
            gunzip(b.as_slice())
        } else {
            None
        },
        _ => None,
    }
}

/// The message a data frame carries, decoded.
pub open spec fn message_of(exchange: Exchange, frame: Frame) -> Option<Json> {
    match frame_text(exchange, frame) {
        Some(t) => parsed_json(t),
        None => None,
    }
}

/// Decodes a data frame of `exchange`'s feed into its JSON message;
/// `None` for a control frame, a binary frame of a feed that does not
/// compress, a failed decompression or text that is not JSON.
pub fn decode(exchange: Exchange, frame: Frame) -> (r: Option<Json>)
    ensures
        r == message_of(exchange, frame),
{
    match text_of(exchange, frame) {
        Some(t) => parse_json(t.as_slice()),
        None => None,
    }
}

/// Decimal digits of `n`, most significant first.
pub open spec fn digits_of(n: nat) -> Seq<u8>
    decreases n,
{
    if n < 10 {
        seq![(48 + n) as u8]
    } else {
        digits_of(n / 10).push((48 + n % 10) as u8)
    }
}

/// Appends the decimal digits of `n` to `v`.
pub fn push_digits(v: &mut Vec<u8>, n: u64)
    ensures
        final(v)@ == old(v)@ + digits_of(n as nat),
    decreases n,
{
    if n >= 10 {
        push_digits(v, n / 10);
    }
    v.push((48 + n % 10) as u8);
    assert(final(v)@ =~= old(v)@ + digits_of(n as nat));
}

/// Appends `tail` to `v`.
pub fn push_bytes(v: &mut Vec<u8>, tail: &[u8])
    ensures
        final(v)@ == old(v)@ + tail@,
{
    let ghost start = v@;
    let mut i: usize = 0;
    while i < tail.len()
        invariant
            i <= tail@.len(),
            v@ == start + tail@.subrange(0, i as int),
        decreases tail@.len() - i,
    {
        v.push(tail[i]);
        i = i + 1;
        assert(v@ =~= start + tail@.subrange(0, i as int));
    }
    assert(tail@.subrange(0, tail@.len() as int) =~= tail@);
}

/// Appends `tail` to `v`.
pub fn push_text(v: &mut Vec<u8>, tail: &str)
    ensures
        final(v)@ == old(v)@ + tail.spec_bytes(),
{
    let bytes = tail.as_bytes();
    let ghost start = v@;
    let mut i: usize = 0;
    while i < bytes.len()
        invariant
            i <= bytes@.len(),
            bytes@ == tail.spec_bytes(),
            v@ == start + bytes@.subrange(0, i as int),
        decreases bytes@.len() - i,
    {
        v.push(bytes[i]);
        i = i + 1;
        assert(v@ =~= start + bytes@.subrange(0, i as int));
    }
    assert(bytes@.subrange(0, bytes@.len() as int) =~= bytes@);
}

/// The subscribe request sent right after connecting at `now_ms`.
pub open spec fn subscribe_text(exchange: Exchange, now_ms: u64) -> Seq<u8> {
    match exchange {
        Exchange::Bitfinex => "{\"event\":\"subscribe\",\"channel\":\"ticker\",\"symbol\":\"tBTCUSD\"}".spec_bytes(),
        Exchange::Bitget => "{\"op\":\"subscribe\",\"args\":[{\"instType\":\"SPOT\",\"channel\":\"ticker\",\"instId\":\"BTCUSDT\"}]}".spec_bytes(),
        Exchange::Bybit => "{\"op\":\"subscribe\",\"args\":[\"tickers.BTCUSDT\"]}".spec_bytes(),
        Exchange::Gateio => "{\"time\":".spec_bytes() + digits_of((now_ms / 1000) as nat)
            + ",\"channel\":\"spot.tickers\",\"event\":\"subscribe\",\"payload\":[\"BTC_USDT\"]}".spec_bytes(),
        Exchange::Htx => "{\"sub\":\"market.btcusdt.ticker\",\"id\":\"id1\"}".spec_bytes(),
        Exchange::Kraken => "{\"method\":\"subscribe\",\"params\":{\"channel\":\"ticker\",\"symbol\":[\"BTC/USD\"],\"event_trigger\":\"bbo\",\"snapshot\":true}}".spec_bytes(),
        Exchange::Kucoin => "{\"id\":".spec_bytes() + digits_of(now_ms as nat)
            + ",\"type\":\"subscribe\",\"topic\":\"/market/ticker:BTC-USDT\",\"response\":true}".spec_bytes(),
        Exchange::Mexc => "{\"method\":\"SUBSCRIBE\",\"params\":[\"spot@public.bookTicker.v3.api@BTCUSDT\"],\"id\":1}".spec_bytes(),
    }
}

pub fn subscribe_request(exchange: Exchange, now_ms: u64) -> (r: Vec<u8>)
    ensures
        r@ == subscribe_text(exchange, now_ms),
{
    let mut v: Vec<u8> = Vec::new();
    match exchange {
        Exchange::Bitfinex => push_text(&mut v, "{\"event\":\"subscribe\",\"channel\":\"ticker\",\"symbol\":\"tBTCUSD\"}"),
        Exchange::Bitget => push_text(&mut v, "{\"op\":\"subscribe\",\"args\":[{\"instType\":\"SPOT\",\"channel\":\"ticker\",\"instId\":\"BTCUSDT\"}]}"),
        Exchange::Bybit => push_text(&mut v, "{\"op\":\"subscribe\",\"args\":[\"tickers.BTCUSDT\"]}"),
        Exchange::Gateio => {
            push_text(&mut v, "{\"time\":");
            push_digits(&mut v, now_ms / 1000);
            push_text(&mut v, ",\"channel\":\"spot.tickers\",\"event\":\"subscribe\",\"payload\":[\"BTC_USDT\"]}");
        },
        Exchange::Htx => push_text(&mut v, "{\"sub\":\"market.btcusdt.ticker\",\"id\":\"id1\"}"),
        Exchange::Kraken => push_text(&mut v, "{\"method\":\"subscribe\",\"params\":{\"channel\":\"ticker\",\"symbol\":[\"BTC/USD\"],\"event_trigger\":\"bbo\",\"snapshot\":true}}"),
        Exchange::Kucoin => {
            push_text(&mut v, "{\"id\":");
            push_digits(&mut v, now_ms);
            push_text(&mut v, ",\"type\":\"subscribe\",\"topic\":\"/market/ticker:BTC-USDT\",\"response\":true}");
        },
        Exchange::Mexc => push_text(&mut v, "{\"method\":\"SUBSCRIBE\",\"params\":[\"spot@public.bookTicker.v3.api@BTCUSDT\"],\"id\":1}"),
    }
    assert(v@ =~= subscribe_text(exchange, now_ms));
    v
}

/// The answer to an exchange's in-band ping, if `message` is one: the
/// timestamp of `{"ping": <ts>}` echoed as `{"pong": <ts>}`, or
/// `{"method":"PONG"}` for `{"method":"PING"}`.
pub open spec fn pong_text(exchange: Exchange, message: Json) -> Option<Seq<u8>> {
    match exchange.spec_heartbeat_style() {
        HeartbeatStyle::PingMember => match message.field("ping".spec_bytes()) {
            Some(Json::Number(ts)) => Some("{\"pong\":".spec_bytes() + ts@ + "}".spec_bytes()),
            _ => None,
        },
        HeartbeatStyle::PingMethod => match message.field("method".spec_bytes()) {
            Some(m) => if m.is_text_of("PING".spec_bytes()) {
                Some("{\"method\":\"PONG\"}".spec_bytes())
            } else {
                None
            },
            None => None,
        },
        HeartbeatStyle::Transport => None,
    }
}

pub fn pong_reply(exchange: Exchange, message: &Json) -> (r: Option<Vec<u8>>)
    ensures
        match r {
            Some(v) => pong_text(exchange, *message) == Some(v@),
            None => pong_text(exchange, *message) is None,
        },
{
    match exchange.heartbeat_style() {
        HeartbeatStyle::PingMember => match message.get("ping".as_bytes()) {
            Some(Json::Number(ts)) => {
                let mut v: Vec<u8> = Vec::new();
                push_text(&mut v, "{\"pong\":");
                push_bytes(&mut v, ts.as_slice());
                push_text(&mut v, "}");
                Some(v)
            },
            _ => None,
        },
        HeartbeatStyle::PingMethod => match message.get("method".as_bytes()) {
            Some(m) => if m.is_text("PING".as_bytes()) {
                let mut v: Vec<u8> = Vec::new();
                push_text(&mut v, "{\"method\":\"PONG\"}");
                Some(v)
            } else {
                None
            },
            None => None,
        },
        HeartbeatStyle::Transport => None,
    }
}

/// What a decoded message is to the session.
#[derive(Clone, Copy, Debug, PartialEq, Eq, Structural)]
pub enum Inbound {
    /// A ticker payload, for the normalizer.
    Ticker,
    /// The subscription was acknowledged, with the channel id that data
    /// messages will carry where the feed assigns one.
    Subscribed(Option<u64>),
    /// The exchange's own heartbeat: nothing to do.
    Heartbeat,
    /// A ping inside a text message, to answer in kind.
    InbandPing,
    /// The exchange reported an error.
    ExchangeError,
    /// None of the above: discarded.
    Unrecognized,
}

/// The member `key` of `j` is the string `text`.
pub open spec fn text_at(j: Json, key: &str, text: &str) -> bool {
    match j.field(key.spec_bytes()) {
        Some(v) => v.is_text_of(text.spec_bytes()),
        None => false,
    }
}

pub open spec fn has(j: Json, key: &str) -> bool {
    j.field(key.spec_bytes()) is Some
}

/// How `exchange`'s session, subscribed on `channel`, reads `message`.
pub open spec fn classified(exchange: Exchange, message: Json, channel: Option<u64>) -> Inbound {
    let j = message;
    match exchange {
        Exchange::Bitfinex => if text_at(j, "event", "subscribed") {
            Inbound::Subscribed(whole_in(j.field("chanId".spec_bytes())))
        } else if text_at(j, "event", "error") {
            Inbound::ExchangeError
        } else if channel is Some && whole_in(j.element(0)) == channel {
            match j.element(1) {
                Some(Json::Array(_)) => Inbound::Ticker,
                Some(v) => if v.is_text_of("hb".spec_bytes()) {
                    Inbound::Heartbeat
                } else {
                    Inbound::Unrecognized
                },
                None => Inbound::Unrecognized,
            }
        } else {
            Inbound::Unrecognized
        },
        Exchange::Bitget => if text_at(j, "event", "subscribe") {
            Inbound::Subscribed(None)
        } else if text_at(j, "event", "error") {
            Inbound::ExchangeError
        } else if has(j, "data") {
            Inbound::Ticker
        } else {
            Inbound::Unrecognized
        },
        Exchange::Bybit => if text_at(j, "op", "subscribe") {
            Inbound::Subscribed(None)
        } else if has(j, "topic") && has(j, "data") {
            Inbound::Ticker
        } else {
            Inbound::Unrecognized
        },
        Exchange::Gateio => if !text_at(j, "channel", "spot.tickers") {
            Inbound::Unrecognized
        } else if text_at(j, "event", "update") {
            Inbound::Ticker
        } else if text_at(j, "event", "subscribe") {
            Inbound::Subscribed(None)
        } else {
            Inbound::Unrecognized
        },
        Exchange::Htx => if has(j, "ping") {
            Inbound::InbandPing
        } else if has(j, "subbed") {
            Inbound::Subscribed(None)
        } else if text_at(j, "status", "error") {
            Inbound::ExchangeError
        } else if has(j, "tick") {
            Inbound::Ticker
        } else {
            Inbound::Unrecognized
        },
        Exchange::Kraken => if text_at(j, "method", "subscribe") {
            Inbound::Subscribed(None)
        } else if text_at(j, "channel", "heartbeat") {
            Inbound::Heartbeat
        } else if text_at(j, "channel", "ticker") {
            Inbound::Ticker
        } else {
            Inbound::Unrecognized
        },
        Exchange::Kucoin => if text_at(j, "type", "message") {
            Inbound::Ticker
        } else if text_at(j, "type", "ack") || text_at(j, "type", "welcome") {
            Inbound::Subscribed(None)
        } else if text_at(j, "type", "pong") {
            Inbound::Heartbeat
        } else if text_at(j, "type", "error") {
            Inbound::ExchangeError
        } else {
            Inbound::Unrecognized
        },
        Exchange::Mexc => if text_at(j, "method", "PING") {
            Inbound::InbandPing
        } else if has(j, "publicbookticker") {
            Inbound::Ticker
        } else if has(j, "code") {
            if whole_in(j.field("code".spec_bytes())) == Some(0u64) {
                Inbound::Subscribed(None)
            } else {
                Inbound::ExchangeError
            }
        } else if has(j, "id") {
            Inbound::Subscribed(None)
        } else {
            Inbound::Unrecognized
        },
    }
}

fn is_text_at(j: &Json, key: &str, text: &str) -> (r: bool)
    ensures
        r == text_at(*j, key, text),
{
    match j.get(key.as_bytes()) {
        Some(v) => v.is_text(text.as_bytes()),
        None => false,
    }
}

fn has_key(j: &Json, key: &str) -> (r: bool)
    ensures
        r == has(*j, key),
{
    j.get(key.as_bytes()).is_some()
}

/// Classifies a decoded message of `exchange`'s feed; `channel` is the id
/// the subscription was acknowledged with, if any.
pub fn classify(exchange: Exchange, message: &Json, channel: Option<u64>) -> (r: Inbound)
    ensures
        r == classified(exchange, *message, channel),
{
    let j = message;
    match exchange {
        Exchange::Bitfinex => if is_text_at(j, "event", "subscribed") {
            Inbound::Subscribed(whole(j.get("chanId".as_bytes())))
        } else if is_text_at(j, "event", "error") {
            Inbound::ExchangeError
        } else if channel.is_some() && whole(j.at(0)) == channel {
            match j.at(1) {
                Some(Json::Array(_)) => Inbound::Ticker,
                Some(v) => if v.is_text("hb".as_bytes()) {
                    Inbound::Heartbeat
                } else {
                    Inbound::Unrecognized
                },
                None => Inbound::Unrecognized,
            }
        } else {
            Inbound::Unrecognized
        },
        Exchange::Bitget => if is_text_at(j, "event", "subscribe") {
            Inbound::Subscribed(None)
        } else if is_text_at(j, "event", "error") {
            Inbound::ExchangeError
        } else if has_key(j, "data") {
            Inbound::Ticker
        } else {
            Inbound::Unrecognized
        },
        Exchange::Bybit => if is_text_at(j, "op", "subscribe") {
            Inbound::Subscribed(None)
        } else if has_key(j, "topic") && has_key(j, "data") {
            Inbound::Ticker
        } else {
            Inbound::Unrecognized
        },
        Exchange::Gateio => if !is_text_at(j, "channel", "spot.tickers") {
            Inbound::Unrecognized
        } else if is_text_at(j, "event", "update") {
            Inbound::Ticker
        } else if is_text_at(j, "event", "subscribe") {
            Inbound::Subscribed(None)
        } else {
            Inbound::Unrecognized
        },
        Exchange::Htx => if has_key(j, "ping") {
            Inbound::InbandPing
        } else if has_key(j, "subbed") {
            Inbound::Subscribed(None)
        } else if is_text_at(j, "status", "error") {
            Inbound::ExchangeError
        } else if has_key(j, "tick") {
            Inbound::Ticker
        } else {
            Inbound::Unrecognized
        },
        Exchange::Kraken => if is_text_at(j, "method", "subscribe") {
            Inbound::Subscribed(None)
        } else if is_text_at(j, "channel", "heartbeat") {
            Inbound::Heartbeat
        } else if is_text_at(j, "channel", "ticker") {
            Inbound::Ticker
        } else {
            Inbound::Unrecognized
        },
        Exchange::Kucoin => if is_text_at(j, "type", "message") {
            Inbound::Ticker
        } else if is_text_at(j, "type", "ack") || is_text_at(j, "type", "welcome") {
            Inbound::Subscribed(None)
        } else if is_text_at(j, "type", "pong") {
            Inbound::Heartbeat
        } else if is_text_at(j, "type", "error") {
            Inbound::ExchangeError
        } else {
            Inbound::Unrecognized
        },
        Exchange::Mexc => if is_text_at(j, "method", "PING") {
            Inbound::InbandPing
        } else if has_key(j, "publicbookticker") {
            Inbound::Ticker
        } else if has_key(j, "code") {
            if whole(j.get("code".as_bytes())) == Some(0u64) {
                Inbound::Subscribed(None)
            } else {
                Inbound::ExchangeError
            }
        } else if has_key(j, "id") {
            Inbound::Subscribed(None)
        } else {
            Inbound::Unrecognized
        },
    }
}

/// A feed that pings inside text frames is answered in kind: the
/// timestamp of `{"ping": <ts>}` comes back, unchanged, as `{"pong": <ts>}`.
pub proof fn lemma_ping_timestamp_echoed(exchange: Exchange, message: Json, ts: Vec<u8>)
    requires
        exchange.spec_heartbeat_style() == HeartbeatStyle::PingMember,
        message.field("ping".spec_bytes()) == Some(Json::Number(ts)),
    ensures
        pong_text(exchange, message) == Some("{\"pong\":".spec_bytes() + ts@ + "}".spec_bytes()),
{
}

} // verus!
