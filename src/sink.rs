use vstd::prelude::*;
use vstd::string::StringSliceAdditionalSpecFns;
use crate::codec::push_text;
use crate::decimal::Decimal;
use crate::exchange::Exchange;
use crate::normalize::Quote;

verus! {

/// How long a series keeps its points, in milliseconds.
pub const RETENTION_MS: u64 = 3_600_000;

#[derive(Clone, Copy, Debug, PartialEq, Eq, Structural)]
pub enum Side {
    Buy,
    Sell,
}

#[derive(Clone, Copy, Debug, PartialEq, Eq, Structural)]
pub enum Metric {
    Price,
    Vol,
}

/// One of the four series of an exchange.
#[derive(Clone, Copy, Debug, PartialEq, Eq, Structural)]
pub struct SeriesId {
    pub exchange: Exchange,
    pub side: Side,
    pub metric: Metric,
}

/// A point to insert: create the series if absent, then append, keeping
/// the last value written at a timestamp.
#[derive(Clone, Copy, Debug, PartialEq, Eq, Structural)]
pub struct SeriesWrite {
    pub series: SeriesId,
    pub timestamp: u64,
    pub value: Decimal,
}

impl Side {
    pub open spec fn spec_label(self) -> &'static str {
        match self {
            Side::Buy => "BUY",
            Side::Sell => "SELL",
        }
    }

    pub fn label(self) -> (r: &'static str)
        ensures
            r == self.spec_label(),
    {
        match self {
            Side::Buy => "BUY",
            Side::Sell => "SELL",
        }
    }
}

impl Metric {
    pub open spec fn spec_label(self) -> &'static str {
        match self {
            Metric::Price => "PRICE",
            Metric::Vol => "VOL",
        }
    }

    pub fn label(self) -> (r: &'static str)
        ensures
            r == self.spec_label(),
    {
        match self {
            Metric::Price => "PRICE",
            Metric::Vol => "VOL",
        }
    }
}

impl SeriesId {
    /// `{EXCHANGE}:XBTUSD:QUOTE:{SIDE}:{METRIC}`.
    pub open spec fn spec_key(self) -> Seq<u8> {
        self.exchange.spec_label().spec_bytes() + ":XBTUSD:QUOTE:".spec_bytes()
            + self.side.spec_label().spec_bytes() + ":".spec_bytes()
            + self.metric.spec_label().spec_bytes()
    }

    /// The labels the series is created with, as (name, value) pairs.
    pub open spec fn spec_labels(self) -> Seq<(&'static str, &'static str)> {
        seq![
            ("EXCHANGE", self.exchange.spec_label()),
            ("SIDE", self.side.spec_label()),
            ("SUB", "QUOTE"),
            ("GROUP", self.metric.spec_label()),
        ]
    }

    pub fn key(&self) -> (r: Vec<u8>)
        ensures
            r@ == self.spec_key(),
    {
        let mut k: Vec<u8> = Vec::new();
        push_text(&mut k, self.exchange.label());
        push_text(&mut k, ":XBTUSD:QUOTE:");
        push_text(&mut k, self.side.label());
        push_text(&mut k, ":");
        push_text(&mut k, self.metric.label());
        assert(k@ =~= self.spec_key());
        k
    }

    pub fn labels(&self) -> (r: Vec<(&'static str, &'static str)>)
        ensures
            r@ == self.spec_labels(),
    {
        let mut v = Vec::new();
        v.push(("EXCHANGE", self.exchange.label()));
        v.push(("SIDE", self.side.label()));
        v.push(("SUB", "QUOTE"));
        v.push(("GROUP", self.metric.label()));
        assert(v@ =~= self.spec_labels());
        v
    }
}

pub open spec fn point(q: Quote, side: Side, metric: Metric, value: Decimal) -> SeriesWrite {
    SeriesWrite {
        series: SeriesId { exchange: q.exchange, side, metric },
        timestamp: q.observed_at,
        value,
    }
}

/// The four points of a quote: buy price, buy volume, sell price, sell
/// volume, all at the quote's time.
pub open spec fn quote_points(q: Quote) -> Seq<SeriesWrite> {
    seq![
        point(q, Side::Buy, Metric::Price, q.bid_price),
        point(q, Side::Buy, Metric::Vol, q.bid_size),
        point(q, Side::Sell, Metric::Price, q.ask_price),
        point(q, Side::Sell, Metric::Vol, q.ask_size),
    ]
}

/// The points that storing `quote` inserts, one per series, in the order
/// they are written.
pub fn quote_writes(quote: &Quote) -> (r: Vec<SeriesWrite>)
    ensures
        r@ == quote_points(*quote),
{
    let exchange = quote.exchange;
    let t = quote.observed_at;
    let mut v = Vec::new();
    v.push(
        SeriesWrite {
            series: SeriesId { exchange, side: Side::Buy, metric: Metric::Price },
            timestamp: t,
            value: quote.bid_price,
        },
    );
    v.push(
        SeriesWrite {
            series: SeriesId { exchange, side: Side::Buy, metric: Metric::Vol },
            timestamp: t,
            value: quote.bid_size,
        },
    );
    v.push(
        SeriesWrite {
            series: SeriesId { exchange, side: Side::Sell, metric: Metric::Price },
            timestamp: t,
            value: quote.ask_price,
        },
    );
    v.push(
        SeriesWrite {
            series: SeriesId { exchange, side: Side::Sell, metric: Metric::Vol },
            timestamp: t,
            value: quote.ask_size,
        },
    );
    assert(v@ =~= quote_points(*quote));
    v
}

/// The points of a series in a store, by timestamp.
pub open spec fn series_points(store: Map<SeriesId, Map<u64, Decimal>>, id: SeriesId) -> Map<
    u64,
    Decimal,
> {
    if store.contains_key(id) {
        store[id]
    } else {
        Map::empty()
    }
}

/// The store after one point insert under the keep-last duplicate policy.
pub open spec fn stored(store: Map<SeriesId, Map<u64, Decimal>>, w: SeriesWrite) -> Map<
    SeriesId,
    Map<u64, Decimal>,
> {
    store.insert(w.series, series_points(store, w.series).insert(w.timestamp, w.value))
}

/// The store after the inserts `ws`, in order.
pub open spec fn stored_all(store: Map<SeriesId, Map<u64, Decimal>>, ws: Seq<SeriesWrite>) -> Map<
    SeriesId,
    Map<u64, Decimal>,
>
    decreases ws.len(),
{
    if ws.len() == 0 {
        store
    } else {
        stored_all(stored(store, ws[0]), ws.drop_first())
    }
}

/// Two inserts into one series at one timestamp leave a single point
/// there, holding the latter value; the series' other points are those
/// it had before.
pub proof fn lemma_keep_last(store: Map<SeriesId, Map<u64, Decimal>>, first: SeriesWrite, second: SeriesWrite)
    requires
        first.series == second.series,
        first.timestamp == second.timestamp,
    ensures
        series_points(stored(stored(store, first), second), second.series) == series_points(
            store,
            second.series,
        ).insert(second.timestamp, second.value),
{
    let id = second.series;
    assert(series_points(stored(store, first), id) == series_points(store, id).insert(
        first.timestamp,
        first.value,
    ));
    assert(series_points(store, id).insert(first.timestamp, first.value).insert(
        second.timestamp,
        second.value,
    ) =~= series_points(store, id).insert(second.timestamp, second.value));
}

proof fn lemma_stored_again(m: Map<SeriesId, Map<u64, Decimal>>, w: SeriesWrite)
    requires
        m.contains_key(w.series),
        m[w.series].contains_key(w.timestamp),
        m[w.series][w.timestamp] == w.value,
    ensures
        stored(m, w) == m,
{
    assert(m[w.series].insert(w.timestamp, w.value) =~= m[w.series]);
    assert(stored(m, w) =~= m);
}

/// Storing the same quote twice leaves the store as storing it once: each
/// of its four series holds one point at the quote's time, with the
/// quote's value.
pub proof fn lemma_store_quote_twice(store: Map<SeriesId, Map<u64, Decimal>>, q: Quote)
    ensures
        stored_all(stored_all(store, quote_points(q)), quote_points(q)) == stored_all(
            store,
            quote_points(q),
        ),
        forall|i: int|
            0 <= i < 4 ==> #[trigger] series_points(
                stored_all(stored_all(store, quote_points(q)), quote_points(q)),
                quote_points(q)[i].series,
            ) == series_points(store, quote_points(q)[i].series).insert(
                q.observed_at,
                quote_points(q)[i].value,
            ),
{
    let ws = quote_points(q);
    reveal_with_fuel(stored_all, 5);
    let once = stored_all(store, ws);
    assert(ws.drop_first().drop_first().drop_first().drop_first() =~= Seq::<SeriesWrite>::empty());
    assert(once == stored(stored(stored(stored(store, ws[0]), ws[1]), ws[2]), ws[3])) by {
        assert(ws.drop_first()[0] == ws[1]);
        assert(ws.drop_first().drop_first()[0] == ws[2]);
        assert(ws.drop_first().drop_first().drop_first()[0] == ws[3]);
    }
    let twice = stored_all(once, ws);
    assert(twice == stored(stored(stored(stored(once, ws[0]), ws[1]), ws[2]), ws[3])) by {
        assert(ws.drop_first()[0] == ws[1]);
        assert(ws.drop_first().drop_first()[0] == ws[2]);
        assert(ws.drop_first().drop_first().drop_first()[0] == ws[3]);
    }
    assert forall|i: int| 0 <= i < 4 implies once.contains_key(ws[i].series) && #[trigger] series_points(once, ws[i].series)
        == series_points(store, ws[i].series).insert(q.observed_at, ws[i].value) by {
        assert(series_points(once, ws[i].series) =~= series_points(store, ws[i].series).insert(
            q.observed_at,
            ws[i].value,
        ));
    }
    lemma_stored_again(once, ws[0]);
    lemma_stored_again(once, ws[1]);
    lemma_stored_again(once, ws[2]);
    lemma_stored_again(once, ws[3]);
}

/// The value a quote writes to the series `id` of its exchange.
pub open spec fn quote_value(q: Quote, id: SeriesId) -> Decimal {
    match (id.side, id.metric) {
        (Side::Buy, Metric::Price) => q.bid_price,
        (Side::Buy, Metric::Vol) => q.bid_size,
        (Side::Sell, Metric::Price) => q.ask_price,
        (Side::Sell, Metric::Vol) => q.ask_size,
    }
}

proof fn lemma_stored_points(m: Map<SeriesId, Map<u64, Decimal>>, w: SeriesWrite, id: SeriesId)
    ensures
        series_points(stored(m, w), id) == if id == w.series {
            series_points(m, id).insert(w.timestamp, w.value)
        } else {
            series_points(m, id)
        },
{
}

proof fn lemma_stored_all_four(store: Map<SeriesId, Map<u64, Decimal>>, q: Quote)
    ensures
        ({
            let ws = quote_points(q);
            stored_all(store, ws) == stored(stored(stored(stored(store, ws[0]), ws[1]), ws[2]), ws[3])
        }),
{
    let ws = quote_points(q);
    reveal_with_fuel(stored_all, 5);
    assert(ws.drop_first().drop_first().drop_first().drop_first() =~= Seq::<SeriesWrite>::empty());
    assert(ws.drop_first()[0] == ws[1]);
    assert(ws.drop_first().drop_first()[0] == ws[2]);
    assert(ws.drop_first().drop_first().drop_first()[0] == ws[3]);
}

/// Storing a quote puts one point, at the quote's time, into each of its
/// exchange's four series, replacing any point there; every other point
/// and every other series stays as it was.
pub proof fn lemma_store_quote(store: Map<SeriesId, Map<u64, Decimal>>, q: Quote, id: SeriesId)
    ensures
        series_points(stored_all(store, quote_points(q)), id) == if id.exchange == q.exchange {
            series_points(store, id).insert(q.observed_at, quote_value(q, id))
        } else {
            series_points(store, id)
        },
{
    let ws = quote_points(q);
    lemma_stored_all_four(store, q);
    let m1 = stored(store, ws[0]);
    let m2 = stored(m1, ws[1]);
    let m3 = stored(m2, ws[2]);
    lemma_stored_points(store, ws[0], id);
    lemma_stored_points(m1, ws[1], id);
    lemma_stored_points(m2, ws[2], id);
    lemma_stored_points(m3, ws[3], id);
}

/// Two quotes of one exchange stored at the same time leave each of its
/// four series with a single point at that time, holding the later
/// quote's value; other timestamps and other series keep their points.
pub proof fn lemma_later_quote_wins(
    store: Map<SeriesId, Map<u64, Decimal>>,
    first: Quote,
    second: Quote,
    id: SeriesId,
)
    requires
        first.exchange == second.exchange,
        first.observed_at == second.observed_at,
    ensures
        series_points(stored_all(stored_all(store, quote_points(first)), quote_points(second)), id)
            == if id.exchange == second.exchange {
            series_points(store, id).insert(second.observed_at, quote_value(second, id))
        } else {
            series_points(store, id)
        },
{
    let once = stored_all(store, quote_points(first));
    lemma_store_quote(store, first, id);
    lemma_store_quote(once, second, id);
    if id.exchange == second.exchange {
        assert(series_points(store, id).insert(first.observed_at, quote_value(first, id)).insert(
            second.observed_at,
            quote_value(second, id),
        ) =~= series_points(store, id).insert(second.observed_at, quote_value(second, id)));
    }
}

} // verus!
