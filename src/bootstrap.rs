use vstd::prelude::*;
use vstd::string::StringSliceAdditionalSpecFns;
use crate::codec::{digits_of, push_bytes, push_digits, push_text};
use crate::decimal::{is_digit, plain_decimal_of, Decimal};
use crate::json::{found, parse_json, parsed_json, Json};

verus! {

/// A websocket address handed out by a bootstrap call, with the ping
/// interval the server asks for.
#[derive(Debug)]
pub struct Endpoint {
    pub url: Vec<u8>,
    pub ping_interval_ms: u64,
}

/// The string member `key` of `j`.
pub open spec fn text_member(j: Json, key: &str) -> Option<Seq<u8>> {
    match j.field(key.spec_bytes()) {
        Some(Json::Text(t)) => Some(t@),
        _ => None,
    }
}

/// A JSON integer: a number written with digits only (at most
/// `MAX_DIGITS` of them).
pub open spec fn integer_in(v: Option<Json>) -> Option<u64> {
    match v {
        Some(Json::Number(t)) => if forall|i: int| 0 <= i < t@.len() ==> is_digit(#[trigger] t@[i]) {
            match plain_decimal_of(t@) {
                Some(d) => Some(d.mantissa),
                None => None,
            }
        } else {
            None
        },
        _ => None,
    }
}

/// An instance server entry: a string `endpoint` and integer
/// `pingInterval` and `pingTimeout`.
pub open spec fn server_ok(server: Json) -> bool {
    &&& text_member(server, "endpoint") is Some
    &&& integer_in(server.field("pingInterval".spec_bytes())) is Some
    &&& integer_in(server.field("pingTimeout".spec_bytes())) is Some
}

/// A list of instance servers, each well formed.
pub open spec fn servers_ok(servers: Json) -> bool {
    &&& servers is Array
    &&& all_servers_ok(servers->Array_0@)
}

pub open spec fn all_servers_ok(items: Seq<Json>) -> bool {
    forall|i: int| 0 <= i < items.len() ==> server_ok(#[trigger] items[i])
}

/// A well-formed bootstrap response: a string `code`, and `data` with a
/// string `token` and a list `instanceServers` of well-formed entries.
pub open spec fn response_ok(response: Json) -> bool {
    &&& text_member(response, "code") is Some
    &&& match response.field("data".spec_bytes()) {
        Some(data) => text_member(data, "token") is Some && match data.field(
            "instanceServers".spec_bytes(),
        ) {
            Some(servers) => servers_ok(servers),
            None => false,
        },
        None => false,
    }
}

/// The first instance server of a bootstrap response.
pub open spec fn first_server(response: Json) -> Option<Json> {
    match response.field("data".spec_bytes()) {
        Some(data) => match data.field("instanceServers".spec_bytes()) {
            Some(servers) => servers.element(0),
            None => None,
        },
        None => None,
    }
}

/// The token of a bootstrap response.
pub open spec fn token_of(response: Json) -> Option<Seq<u8>> {
    match response.field("data".spec_bytes()) {
        Some(data) => text_member(data, "token"),
        None => None,
    }
}

/// The address `{endpoint}?token={token}&connectId={now_ms}` of the first
/// instance server, and its ping interval, when the response is well
/// formed and lists a server.
pub open spec fn endpoint_in(response: Json, now_ms: u64) -> Option<(Seq<u8>, u64)> {
    if !response_ok(response) {
        None
    } else {
        match (first_server(response), token_of(response)) {
            (Some(server), Some(token)) => match (
                text_member(server, "endpoint"),
                integer_in(server.field("pingInterval".spec_bytes())),
            ) {
                (Some(address), Some(interval)) => Some(
                    (
                        address + "?token=".spec_bytes() + token + "&connectId=".spec_bytes()
                            + digits_of(now_ms as nat),
                        interval,
                    ),
                ),
                _ => None,
            },
            _ => None,
        }
    }
}

fn integer(v: Option<&Json>) -> (r: Option<u64>)
    ensures
        r == integer_in(found(v)),
{
    match v {
        Some(Json::Number(t)) => {
            let mut i: usize = 0;
            while i < t.len()
                invariant
                    i <= t@.len(),
                    forall|j: int| 0 <= j < i ==> is_digit(#[trigger] t@[j]),
                    found(v) == Some(Json::Number(*t)),
                decreases t@.len() - i,
            {
                if !(48 <= t[i] && t[i] <= 57) {
                    assert(!is_digit(t@[i as int]));
                    return None;
                }
                i = i + 1;
            }
            match Decimal::parse_plain(t.as_slice()) {
                Some(d) => Some(d.mantissa),
                None => None,
            }
        },
        _ => None,
    }
}

fn server_valid(server: &Json) -> (r: bool)
    ensures
        r == server_ok(*server),
{
    text_member_of(server, "endpoint").is_some() && integer(server.get("pingInterval".as_bytes())).is_some()
        && integer(server.get("pingTimeout".as_bytes())).is_some()
}

fn servers_valid(servers: &Json) -> (r: bool)
    ensures
        r == servers_ok(*servers),
{
    match servers {
        Json::Array(items) => {
            let mut i: usize = 0;
            while i < items.len()
                invariant
                    i <= items@.len(),
                    forall|j: int| 0 <= j < i ==> server_ok(#[trigger] items@[j]),
                    *servers == Json::Array(*items),
                decreases items@.len() - i,
            {
                if !server_valid(&items[i]) {
                    assert(!server_ok(items@[i as int]));
                    return false;
                }
                i = i + 1;
            }
            true
        },
        _ => false,
    }
}

fn text_member_of<'a>(j: &'a Json, key: &str) -> (r: Option<&'a Vec<u8>>)
    ensures
        match r {
            Some(t) => text_member(*j, key) == Some(t@),
            None => text_member(*j, key) is None,
        },
{
    match j.get(key.as_bytes()) {
        Some(Json::Text(t)) => Some(t),
        _ => None,
    }
}

/// Reads the websocket address and ping interval out of a decoded
/// bootstrap response, for a connection made at `now_ms`.
pub fn endpoint_from(response: &Json, now_ms: u64) -> (r: Option<Endpoint>)
    ensures
        match r {
            Some(e) => endpoint_in(*response, now_ms) == Some((e.url@, e.ping_interval_ms)),
            None => endpoint_in(*response, now_ms) is None,
        },
{
    if text_member_of(response, "code").is_none() {
        return None;
    }
    let data = match response.get("data".as_bytes()) {
        Some(d) => d,
        None => return None,
    };
    let servers = match data.get("instanceServers".as_bytes()) {
        Some(servers) => servers,
        None => return None,
    };
    if !servers_valid(servers) {
        return None;
    }
    let server = match servers.at(0) {
        Some(s) => s,
        None => return None,
    };
    let token = match text_member_of(data, "token") {
        Some(t) => t,
        None => return None,
    };
    let address = match text_member_of(server, "endpoint") {
        Some(a) => a,
        None => return None,
    };
    let interval = match integer(server.get("pingInterval".as_bytes())) {
        Some(i) => i,
        None => return None,
    };
    let mut url: Vec<u8> = Vec::new();
    push_bytes(&mut url, address.as_slice());
    push_text(&mut url, "?token=");
    push_bytes(&mut url, token.as_slice());
    push_text(&mut url, "&connectId=");
    push_digits(&mut url, now_ms);
    Some(Endpoint { url, ping_interval_ms: interval })
}

/// The websocket endpoint named by the body of a bootstrap call, for a
/// connection made at `now_ms`; `None` when the body is not JSON, is not
/// a well-formed bootstrap response, or lists no server.
pub fn get_websocket_endpoint(body: &[u8], now_ms: u64) -> (r: Option<Endpoint>)
    ensures
        match parsed_json(body@) {
            Some(response) => match r {
                Some(e) => endpoint_in(response, now_ms) == Some((e.url@, e.ping_interval_ms)),
                None => endpoint_in(response, now_ms) is None,
            },
            None => r is None,
        },
{
    match parse_json(body) {
        Some(response) => endpoint_from(&response, now_ms),
        None => None,
    }
}

} // verus!
