use vstd::prelude::*;
use vstd::string::StringSliceAdditionalSpecFns;
use crate::decimal::{decimal_of, Decimal, MAX_DIGITS};
use crate::exchange::{Exchange, Field, RecordAt, Sizes, StampAt, TickerLayout};
use crate::json::{found, Json};

verus! {

/// The canonical top-of-book record of one ticker event.
#[derive(Clone, Copy, Debug, PartialEq, Eq, Structural)]
pub struct Quote {
    pub exchange: Exchange,
    /// Milliseconds since the epoch.
    pub observed_at: u64,
    pub bid_price: Decimal,
    pub bid_size: Decimal,
    pub ask_price: Decimal,
    pub ask_size: Decimal,
}

impl Quote {
    /// Every value is a finite, non-negative decimal of bounded size.
    pub open spec fn in_range(self) -> bool {
        &&& self.bid_price.mantissa < 5_000_000_000_000_000_000 && self.bid_price.scale <= 19
        &&& self.bid_size.mantissa < 5_000_000_000_000_000_000 && self.bid_size.scale <= 19
        &&& self.ask_price.mantissa < 5_000_000_000_000_000_000 && self.ask_price.scale <= 19
        &&& self.ask_size.mantissa < 5_000_000_000_000_000_000 && self.ask_size.scale <= 19
    }
}

/// Why a ticker payload gave no quote.
#[derive(Clone, Copy, Debug, PartialEq, Eq, Structural)]
pub enum NormalizeError {
    /// A required field, or the record holding them, is absent.
    MissingField,
    /// A required field is not a non-negative decimal.
    NotNumeric,
}

/// The ticker record of `payload`.
pub open spec fn record_of(at: RecordAt, payload: Json) -> Option<Json> {
    match at {
        RecordAt::Member(name) => payload.field(name.spec_bytes()),
        RecordAt::FirstOf(name) => match payload.field(name.spec_bytes()) {
            Some(list) => list.element(0),
            None => None,
        },
        RecordAt::Element(index) => payload.element(index as int),
    }
}

pub open spec fn select(record: Json, at: Field) -> Option<Json> {
    match at {
        Field::Named(name) => record.field(name.spec_bytes()),
        Field::Position(index) => record.element(index as int),
    }
}

/// The decimal written in a number or a string.
pub open spec fn decimal_in(v: Option<Json>) -> Result<Decimal, NormalizeError> {
    match v {
        None => Err(NormalizeError::MissingField),
        Some(j) => match j.scalar_text() {
            None => Err(NormalizeError::NotNumeric),
            Some(t) => match decimal_of(t) {
                Some(d) => Ok(d),
                None => Err(NormalizeError::NotNumeric),
            },
        },
    }
}

/// Bid and ask size; a single volume is split evenly.
pub open spec fn sizes_in(record: Json, sizes: Sizes) -> Result<(Decimal, Decimal), NormalizeError> {
    match sizes {
        Sizes::Separate(bid, ask) => match decimal_in(select(record, bid)) {
            Err(e) => Err(e),
            Ok(b) => match decimal_in(select(record, ask)) {
                Err(e) => Err(e),
                Ok(a) => Ok((b, a)),
            },
        },
        Sizes::SplitVolume(volume) => match decimal_in(select(record, volume)) {
            Err(e) => Err(e),
            Ok(v) => Ok((v.halved(), v.halved())),
        },
    }
}

/// The whole number written in `v`, if there is one.
pub open spec fn whole_in(v: Option<Json>) -> Option<u64> {
    match decimal_in(v) {
        Ok(d) => if d.scale == 0 {
            Some(d.mantissa)
        } else {
            None
        },
        Err(_) => None,
    }
}

/// The event time: the feed's own where it gives a whole number, else the
/// capture time `now`.
pub open spec fn stamp_in(at: StampAt, payload: Json, record: Json, now: u64) -> u64 {
    let given = match at {
        StampAt::Capture => None,
        StampAt::Payload(name) => whole_in(payload.field(name.spec_bytes())),
        StampAt::Record(name) => whole_in(record.field(name.spec_bytes())),
    };
    match given {
        Some(t) => t,
        None => now,
    }
}

/// The quote of a ticker payload laid out as `layout`, captured at `now`.
pub open spec fn quote_in(exchange: Exchange, layout: TickerLayout, payload: Json, now: u64) -> Result<
    Quote,
    NormalizeError,
> {
    match record_of(layout.record, payload) {
        None => Err(NormalizeError::MissingField),
        Some(record) => match decimal_in(select(record, layout.bid_price)) {
            Err(e) => Err(e),
            Ok(bid) => match decimal_in(select(record, layout.ask_price)) {
                Err(e) => Err(e),
                Ok(ask) => match sizes_in(record, layout.sizes) {
                    Err(e) => Err(e),
                    Ok((bid_size, ask_size)) => Ok(
                        Quote {
                            exchange,
                            observed_at: stamp_in(layout.stamp, payload, record, now),
                            bid_price: bid,
                            bid_size,
                            ask_price: ask,
                            ask_size,
                        },
                    ),
                },
            },
        },
    }
}

/// The quote that `exchange`'s ticker payload gives.
pub open spec fn normalized(exchange: Exchange, payload: Json, now: u64) -> Result<Quote, NormalizeError> {
    quote_in(exchange, exchange.spec_layout(), payload, now)
}

/// Reads a numeric field given as a JSON string or number.
pub fn de_float_from_str(text: &[u8]) -> (r: Result<Decimal, NormalizeError>)
    ensures
        r == (match decimal_of(text@) {
            Some(d) => Ok(d),
            None => Err(NormalizeError::NotNumeric),
        }),
        r matches Ok(d) ==> d.mantissa < 1_000_000_000_000_000_000 && d.scale <= MAX_DIGITS,
{
    match Decimal::parse(text) {
        Some(d) => Ok(d),
        None => Err(NormalizeError::NotNumeric),
    }
}

fn record<'a>(at: RecordAt, payload: &'a Json) -> (r: Option<&'a Json>)
    ensures
        found(r) == record_of(at, *payload),
{
    match at {
        RecordAt::Member(name) => payload.get(name.as_bytes()),
        RecordAt::FirstOf(name) => match payload.get(name.as_bytes()) {
            Some(list) => list.at(0),
            None => None,
        },
        RecordAt::Element(index) => payload.at(index),
    }
}

fn pick<'a>(record: &'a Json, at: Field) -> (r: Option<&'a Json>)
    ensures
        found(r) == select(*record, at),
{
    match at {
        Field::Named(name) => record.get(name.as_bytes()),
        Field::Position(index) => record.at(index),
    }
}

fn decimal(v: Option<&Json>) -> (r: Result<Decimal, NormalizeError>)
    ensures
        r == decimal_in(found(v)),
        r matches Ok(d) ==> d.mantissa < 1_000_000_000_000_000_000 && d.scale <= MAX_DIGITS,
{
    match v {
        None => Err(NormalizeError::MissingField),
        Some(j) => match j.scalar() {
            None => Err(NormalizeError::NotNumeric),
            Some(t) => de_float_from_str(t),
        },
    }
}

pub(crate) fn whole(v: Option<&Json>) -> (r: Option<u64>)
    ensures
        r == whole_in(found(v)),
{
    match decimal(v) {
        Ok(d) => if d.scale == 0 {
            Some(d.mantissa)
        } else {
            None
        },
        Err(_) => None,
    }
}

/// Maps an exchange's ticker payload to a quote; `now_ms` is the capture
/// time, used where the payload carries no event time.
pub fn normalize(exchange: Exchange, payload: &Json, now_ms: u64) -> (r: Result<Quote, NormalizeError>)
    ensures
        r == normalized(exchange, *payload, now_ms),
        r matches Ok(q) ==> q.in_range() && q.exchange == exchange,
{
    let layout = exchange.layout();
    let rec = match record(layout.record, payload) {
        None => return Err(NormalizeError::MissingField),
        Some(rec) => rec,
    };
    let bid_price = match decimal(pick(rec, layout.bid_price)) {
        Err(e) => return Err(e),
        Ok(d) => d,
    };
    let ask_price = match decimal(pick(rec, layout.ask_price)) {
        Err(e) => return Err(e),
        Ok(d) => d,
    };
    let (bid_size, ask_size) = match layout.sizes {
        Sizes::Separate(bid, ask) => {
            let b = match decimal(pick(rec, bid)) {
                Err(e) => return Err(e),
                Ok(d) => d,
            };
            let a = match decimal(pick(rec, ask)) {
                Err(e) => return Err(e),
                Ok(d) => d,
            };
            (b, a)
        },
        Sizes::SplitVolume(volume) => {
            let v = match decimal(pick(rec, volume)) {
                Err(e) => return Err(e),
                Ok(d) => d,
            };
            (v.half(), v.half())
        },
    };
    let given = match layout.stamp {
        StampAt::Capture => None,
        StampAt::Payload(name) => whole(payload.get(name.as_bytes())),
        StampAt::Record(name) => whole(rec.get(name.as_bytes())),
    };
    let observed_at = match given {
        Some(t) => t,
        None => now_ms,
    };
    Ok(Quote { exchange, observed_at, bid_price, bid_size, ask_price, ask_size })
}

/// A payload that lacks its ticker record, or whose record lacks a
/// required field or holds one that is not a non-negative decimal,
/// gives an error and no quote.
pub proof fn lemma_malformed_rejected(exchange: Exchange, payload: Json, now: u64)
    requires
        ({
            let layout = exchange.spec_layout();
            match record_of(layout.record, payload) {
                None => true,
                Some(record) => decimal_in(select(record, layout.bid_price)) is Err
                    || decimal_in(select(record, layout.ask_price)) is Err
                    || sizes_in(record, layout.sizes) is Err,
            }
        }),
    ensures
        normalized(exchange, payload, now) is Err,
{
}

} // verus!
