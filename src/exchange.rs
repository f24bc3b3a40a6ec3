use vstd::prelude::*;

verus! {

/// The exchanges whose feeds are ingested.
#[derive(Clone, Copy, Debug, PartialEq, Eq, Structural)]
pub enum Exchange {
    Bitfinex,
    Bitget,
    Bybit,
    Gateio,
    Htx,
    Kraken,
    Kucoin,
    Mexc,
}

/// Where a value sits inside a ticker record.
#[derive(Clone, Copy, Debug)]
pub enum Field {
    /// The member of that name of an object.
    Named(&'static str),
    /// The element at that index of an array.
    Position(usize),
}

/// Where the ticker record sits inside a payload.
#[derive(Clone, Copy, Debug)]
pub enum RecordAt {
    /// The member of that name.
    Member(&'static str),
    /// The first element of the list under that name.
    FirstOf(&'static str),
    /// The element at that index of an array payload.
    Element(usize),
}

/// How bid and ask sizes are read.
#[derive(Clone, Copy, Debug)]
pub enum Sizes {
    /// A field for each side.
    Separate(Field, Field),
    /// One traded volume, split evenly between the two sides.
    SplitVolume(Field),
}

/// Where the event time (milliseconds) is read.
#[derive(Clone, Copy, Debug)]
pub enum StampAt {
    /// The feed gives none: the capture time is used.
    Capture,
    /// A member of the payload.
    Payload(&'static str),
    /// A member of the ticker record.
    Record(&'static str),
}

/// The shape of an exchange's ticker payload.
#[derive(Clone, Copy, Debug)]
pub struct TickerLayout {
    pub record: RecordAt,
    pub bid_price: Field,
    pub ask_price: Field,
    pub sizes: Sizes,
    pub stamp: StampAt,
}

/// How an exchange keeps its connection alive.
#[derive(Clone, Copy, Debug, PartialEq, Eq, Structural)]
pub enum HeartbeatStyle {
    /// Transport ping frames only.
    Transport,
    /// `{"ping": <ts>}` text frames, answered with `{"pong": <ts>}`.
    PingMember,
    /// `{"method":"PING"}` text frames, answered with `{"method":"PONG"}`.
    PingMethod,
}

impl Exchange {
    pub open spec fn spec_label(self) -> &'static str {
        match self {
            Exchange::Bitfinex => "BITFINEX",
            Exchange::Bitget => "BITGET",
            Exchange::Bybit => "BYBIT",
            Exchange::Gateio => "GATEIO",
            Exchange::Htx => "HTX",
            Exchange::Kraken => "KRAKEN",
            Exchange::Kucoin => "KUCOIN",
            Exchange::Mexc => "MEXC",
        }
    }

    /// The identifier used in series keys and labels.
    pub fn label(self) -> (r: &'static str)
        ensures
            r == self.spec_label(),
    {
        match self {
            Exchange::Bitfinex => "BITFINEX",
            Exchange::Bitget => "BITGET",
            Exchange::Bybit => "BYBIT",
            Exchange::Gateio => "GATEIO",
            Exchange::Htx => "HTX",
            Exchange::Kraken => "KRAKEN",
            Exchange::Kucoin => "KUCOIN",
            Exchange::Mexc => "MEXC",
        }
    }

    pub open spec fn spec_layout(self) -> TickerLayout {
        match self {
            Exchange::Bitfinex => TickerLayout {
                record: RecordAt::Element(1),
                bid_price: Field::Position(0),
                ask_price: Field::Position(2),
                sizes: Sizes::Separate(Field::Position(1), Field::Position(3)),
                stamp: StampAt::Capture,
            },
            Exchange::Bitget => TickerLayout {
                record: RecordAt::FirstOf("data"),
                bid_price: Field::Named("bidPr"),
                ask_price: Field::Named("askPr"),
                sizes: Sizes::Separate(Field::Named("bidSz"), Field::Named("askSz")),
                stamp: StampAt::Record("ts"),
            },
            Exchange::Bybit => TickerLayout {
                record: RecordAt::Member("data"),
                bid_price: Field::Named("lastPrice"),
                ask_price: Field::Named("lastPrice"),
                sizes: Sizes::SplitVolume(Field::Named("volume24h")),
                stamp: StampAt::Payload("ts"),
            },
            Exchange::Gateio => TickerLayout {
                record: RecordAt::Member("result"),
                bid_price: Field::Named("highest_bid"),
                ask_price: Field::Named("lowest_ask"),
                sizes: Sizes::SplitVolume(Field::Named("base_volume")),
                stamp: StampAt::Capture,
            },
            Exchange::Htx => TickerLayout {
                record: RecordAt::Member("tick"),
                bid_price: Field::Named("bid"),
                ask_price: Field::Named("ask"),
                sizes: Sizes::SplitVolume(Field::Named("vol")),
                stamp: StampAt::Payload("ts"),
            },
            Exchange::Kraken => TickerLayout {
                record: RecordAt::FirstOf("data"),
                bid_price: Field::Named("bid"),
                ask_price: Field::Named("ask"),
                sizes: Sizes::Separate(Field::Named("bid_qty"), Field::Named("ask_qty")),
                stamp: StampAt::Capture,
            },
            Exchange::Kucoin => TickerLayout {
                record: RecordAt::Member("data"),
                bid_price: Field::Named("bestBid"),
                ask_price: Field::Named("bestAsk"),
                sizes: Sizes::Separate(Field::Named("bestBidSize"), Field::Named("bestAskSize")),
                stamp: StampAt::Record("Time"),
            },
            Exchange::Mexc => TickerLayout {
                record: RecordAt::Member("publicbookticker"),
                bid_price: Field::Named("bidprice"),
                ask_price: Field::Named("askprice"),
                sizes: Sizes::Separate(Field::Named("bidquantity"), Field::Named("askquantity")),
                stamp: StampAt::Payload("sendtime"),
            },
        }
    }

    /// Where this exchange's ticker payload holds the quote.
    pub fn layout(self) -> (r: TickerLayout)
        ensures
            r == self.spec_layout(),
    {
        match self {
            Exchange::Bitfinex => TickerLayout {
                record: RecordAt::Element(1),
                bid_price: Field::Position(0),
                ask_price: Field::Position(2),
                sizes: Sizes::Separate(Field::Position(1), Field::Position(3)),
                stamp: StampAt::Capture,
            },
            Exchange::Bitget => TickerLayout {
                record: RecordAt::FirstOf("data"),
                bid_price: Field::Named("bidPr"),
                ask_price: Field::Named("askPr"),
                sizes: Sizes::Separate(Field::Named("bidSz"), Field::Named("askSz")),
                stamp: StampAt::Record("ts"),
            },
            Exchange::Bybit => TickerLayout {
                record: RecordAt::Member("data"),
                bid_price: Field::Named("lastPrice"),
                ask_price: Field::Named("lastPrice"),
                sizes: Sizes::SplitVolume(Field::Named("volume24h")),
                stamp: StampAt::Payload("ts"),
            },
            Exchange::Gateio => TickerLayout {
                record: RecordAt::Member("result"),
                bid_price: Field::Named("highest_bid"),
                ask_price: Field::Named("lowest_ask"),
                sizes: Sizes::SplitVolume(Field::Named("base_volume")),
                stamp: StampAt::Capture,
            },
            Exchange::Htx => TickerLayout {
                record: RecordAt::Member("tick"),
                bid_price: Field::Named("bid"),
                ask_price: Field::Named("ask"),
                sizes: Sizes::SplitVolume(Field::Named("vol")),
                stamp: StampAt::Payload("ts"),
            },
            Exchange::Kraken => TickerLayout {
                record: RecordAt::FirstOf("data"),
                bid_price: Field::Named("bid"),
                ask_price: Field::Named("ask"),
                sizes: Sizes::Separate(Field::Named("bid_qty"), Field::Named("ask_qty")),
                stamp: StampAt::Capture,
            },
            Exchange::Kucoin => TickerLayout {
                record: RecordAt::Member("data"),
                bid_price: Field::Named("bestBid"),
                ask_price: Field::Named("bestAsk"),
                sizes: Sizes::Separate(Field::Named("bestBidSize"), Field::Named("bestAskSize")),
                stamp: StampAt::Record("Time"),
            },
            Exchange::Mexc => TickerLayout {
                record: RecordAt::Member("publicbookticker"),
                bid_price: Field::Named("bidprice"),
                ask_price: Field::Named("askprice"),
                sizes: Sizes::Separate(Field::Named("bidquantity"), Field::Named("askquantity")),
                stamp: StampAt::Payload("sendtime"),
            },
        }
    }

    pub open spec fn spec_heartbeat_style(self) -> HeartbeatStyle {
        match self {
            Exchange::Htx => HeartbeatStyle::PingMember,
            Exchange::Mexc => HeartbeatStyle::PingMethod,
            _ => HeartbeatStyle::Transport,
        }
    }

    pub fn heartbeat_style(self) -> (r: HeartbeatStyle)
        ensures
            r == self.spec_heartbeat_style(),
    {
        match self {
            Exchange::Htx => HeartbeatStyle::PingMember,
            Exchange::Mexc => HeartbeatStyle::PingMethod,
            _ => HeartbeatStyle::Transport,
        }
    }

    /// Binary frames of this feed are gzip-compressed JSON.
    pub open spec fn spec_compressed(self) -> bool {
        self == Exchange::Htx
    }

    pub fn compressed(self) -> (r: bool)
        ensures
            r == self.spec_compressed(),
    {
        match self {
            Exchange::Htx => true,
            _ => false,
        }
    }

    /// The endpoint must be fetched, with a token, before each connection.
    pub open spec fn spec_needs_bootstrap(self) -> bool {
        self == Exchange::Kucoin
    }

    pub fn needs_bootstrap(self) -> (r: bool)
        ensures
            r == self.spec_needs_bootstrap(),
    {
        match self {
            Exchange::Kucoin => true,
            _ => false,
        }
    }

    /// Milliseconds of silence after which a ping is sent (an exchange
    /// with a bootstrap call takes its interval from that call instead).
    pub open spec fn spec_heartbeat_interval_ms(self) -> u64 {
        match self {
            Exchange::Bitfinex | Exchange::Kraken => 30_000,
            _ => 5_000,
        }
    }

    pub fn heartbeat_interval_ms(self) -> (r: u64)
        ensures
            r == self.spec_heartbeat_interval_ms(),
    {
        match self {
            Exchange::Bitfinex | Exchange::Kraken => 30_000,
            _ => 5_000,
        }
    }

    pub open spec fn spec_endpoint(self) -> &'static str {
        match self {
            Exchange::Bitfinex => "wss://api-pub.bitfinex.com/ws/2",
            Exchange::Bitget => "wss://ws.bitget.com/v2/ws/public",
            Exchange::Bybit => "wss://stream.bybit.com/v5/public/spot",
            Exchange::Gateio => "wss://api.gateio.ws/ws/v4/",
            Exchange::Htx => "wss://api.huobi.pro/ws",
            Exchange::Kraken => "wss://ws.kraken.com/v2",
            Exchange::Kucoin => "https://api.kucoin.com/api/v1/bullet-public",
            Exchange::Mexc => "wss://wbs.mexc.com/ws",
        }
    }

    /// The websocket endpoint (for a bootstrap exchange, the address of
    /// the call that hands one out).
    pub fn endpoint(self) -> (r: &'static str)
        ensures
            r == self.spec_endpoint(),
    {
        match self {
            Exchange::Bitfinex => "wss://api-pub.bitfinex.com/ws/2",
            Exchange::Bitget => "wss://ws.bitget.com/v2/ws/public",
            Exchange::Bybit => "wss://stream.bybit.com/v5/public/spot",
            Exchange::Gateio => "wss://api.gateio.ws/ws/v4/",
            Exchange::Htx => "wss://api.huobi.pro/ws",
            Exchange::Kraken => "wss://ws.kraken.com/v2",
            Exchange::Kucoin => "https://api.kucoin.com/api/v1/bullet-public",
            Exchange::Mexc => "wss://wbs.mexc.com/ws",
        }
    }
}

} // verus!
