//! Room session state: the resolved room, its auth token and
//! candidate hosts, the interpretation of the two room-resolution
//! responses, and the host-failover rule.
//!
//! The HTTP calls that fetch the two responses are the platform's
//! business; the library is handed their JSON and decides everything
//! after that.

use vstd::prelude::*;

verus! {

use crate::json::{JsonValue, spec_obj_get, obj_get};
use crate::text::{spec_dec_chars, append_dec_u64, str_eq};
use vstd::string::StringExecFns;

/// One candidate chat host: name and TLS WebSocket port.
#[derive(Debug, Clone, PartialEq)]
pub struct Host {
    pub host: String,
    pub wss_port: u16,
}

impl Host {
    /// The transport URL of this host.
    pub open spec fn spec_wss(self) -> Seq<char> {
        "wss://"@ + self.host@ + ":"@ + spec_dec_chars(self.wss_port as u64) + "/sub"@
    }

    /// The transport URL of this host:
    /// `wss://{host}:{wss_port}/sub`.
    pub fn wss(&self) -> (url: String)
        ensures
            url@ == self.spec_wss(),
    {
        let mut url = String::from_str("wss://");
        url.append(self.host.as_str());
        url.append(":");
        append_dec_u64(&mut url, self.wss_port as u64);
        url.append("/sub");
        assert(url@ =~= self.spec_wss());
        url
    }
}

/// Why room resolution failed.
#[derive(Debug)]
pub enum InitError {
    /// The response body could not be read.
    ParseError,
    /// The endpoint answered with a non-success status or was not
    /// reachable.
    HttpError,
    /// The response was JSON of an unexpected shape; the field that
    /// failed is named.
    DeserError(String),
}

/// A fault raised while a connection is being served.
#[derive(Debug)]
pub enum Exception {
    FailToAuth,
    WsSendError(String),
    WsDisconnected(String),
}

/// Why connecting failed.
#[derive(Debug)]
pub enum ConnectError {
    /// The resolved host list was empty: terminal, nothing to try.
    HostListIsEmpty,
    /// Every host in the list was tried and failed.
    HandshakeError,
    /// A transport fault, in words.
    WsError(String),
}

/// A resolved room session: the canonical room id, the caller's user
/// id, the short-lived auth token, and the ordered host candidates.
/// Immutable after resolution except for `host_index` during
/// failover.
#[derive(Debug, Clone)]
pub struct Connector {
    pub roomid: u64,
    pub uid: u64,
    pub key: String,
    pub host_index: usize,
    pub host_list: Vec<Host>,
    /// The persisted login cookie text, when the caller has one; the
    /// platform's HTTP client sends it, the engine only carries it.
    pub login_info: Option<String>,
}

// ---------------------------------------------------------------------------
// Interpreting the two room-resolution responses
// ---------------------------------------------------------------------------

/// The canonical room id in a room-play-info response: under `data`,
/// which may be absent or `null` (then the asked-for id stands), the
/// required number `room_id`.
pub open spec fn spec_room_play_room_id(v: JsonValue) -> Result<Option<u64>, Seq<char>> {
    match v {
        JsonValue::Object(fs) => match spec_obj_get(fs@, "data"@) {
            None => Ok(None),
            Some(JsonValue::Null) => Ok(None),
            Some(JsonValue::Object(dfs)) => match spec_obj_get(dfs@, "room_id"@) {
                Some(JsonValue::UInt(id)) => Ok(Some(id)),
                _ => Err("room_id"@),
            },
            Some(_) => Err("data"@),
        },
        _ => Err("data"@),
    }
}

/// Reads the canonical room id out of a room-play-info response.
pub fn parse_room_play_info(v: &JsonValue) -> (r: Result<Option<u64>, String>)
    ensures
        match r {
            Ok(id) => spec_room_play_room_id(*v) == Ok::<Option<u64>, Seq<char>>(id),
            Err(e) => spec_room_play_room_id(*v) == Err::<Option<u64>, Seq<char>>(e@),
        },
{
    match v {
        JsonValue::Object(fs) => match obj_get(fs, "data") {
            None => Ok(None),
            Some(JsonValue::Null) => Ok(None),
            Some(JsonValue::Object(dfs)) => match obj_get(dfs, "room_id") {
                Some(JsonValue::UInt(id)) => Ok(Some(*id)),
                _ => Err("room_id".to_owned()),
            },
            Some(_) => Err("data".to_owned()),
        },
        _ => Err("data".to_owned()),
    }
}

/// One host entry: a required string `host` and a required port
/// `wss_port` that fits sixteen bits.
pub open spec fn spec_host_entry(v: JsonValue) -> Result<Host, Seq<char>> {
    match v {
        JsonValue::Object(fs) => match (spec_obj_get(fs@, "host"@), spec_obj_get(
            fs@,
            "wss_port"@,
        )) {
            (Some(JsonValue::Str(h)), Some(JsonValue::UInt(p))) => if p <= u16::MAX as u64 {
                Ok(Host { host: h, wss_port: p as u16 })
            } else {
                Err("wss_port"@)
            },
            (Some(JsonValue::Str(_)), _) => Err("wss_port"@),
            _ => Err("host"@),
        },
        _ => Err("host"@),
    }
}

/// The host entries of a run, in order, or the field that failed.
pub open spec fn spec_host_entries(items: Seq<JsonValue>) -> Result<Seq<Host>, Seq<char>>
    decreases items.len(),
{
    if items.len() == 0 {
        Ok(seq![])
    } else {
        match spec_host_entry(items[0]) {
            Err(f) => Err(f),
            Ok(h) => match spec_host_entries(items.drop_first()) {
                Ok(rest) => Ok(seq![h] + rest),
                Err(f) => Err(f),
            },
        }
    }
}

/// The token and host list in a danmu-info response: under the
/// required object `data`, the required string `token` and the
/// required array `host_list` of host entries.
pub open spec fn spec_danmu_info(v: JsonValue) -> Result<(String, Seq<Host>), Seq<char>> {
    match v {
        JsonValue::Object(fs) => match spec_obj_get(fs@, "data"@) {
            Some(JsonValue::Object(dfs)) => match (spec_obj_get(dfs@, "token"@), spec_obj_get(
                dfs@,
                "host_list"@,
            )) {
                (Some(JsonValue::Str(token)), Some(JsonValue::Array(items))) => match
                    spec_host_entries(items@) {
                    Ok(hosts) => Ok((token, hosts)),
                    Err(f) => Err(f),
                },
                (Some(JsonValue::Str(_)), _) => Err("host_list"@),
                _ => Err("token"@),
            },
            _ => Err("data"@),
        },
        _ => Err("data"@),
    }
}

fn parse_host_entries(items: &Vec<JsonValue>) -> (r: Result<Vec<Host>, String>)
    ensures
        match r {
            Ok(hosts) => spec_host_entries(items@) == Ok::<Seq<Host>, Seq<char>>(hosts@),
            Err(e) => spec_host_entries(items@) == Err::<Seq<Host>, Seq<char>>(e@),
        },
{
    let mut out: Vec<Host> = Vec::new();
    let n = items.len();
    let mut i: usize = 0;
    proof {
        assert(items@.skip(0) =~= items@);
    }
    while i < n
        invariant
            n == items@.len(),
            i <= n,
            (match spec_host_entries(items@.skip(i as int)) {
                Ok(rest) => spec_host_entries(items@) == Ok::<Seq<Host>, Seq<char>>(out@ + rest),
                Err(f) => spec_host_entries(items@) == Err::<Seq<Host>, Seq<char>>(f),
            }),
        decreases n - i,
    {
        proof {
            let tail = items@.skip(i as int);
            assert(tail[0] == items@[i as int]);
            assert(tail.drop_first() =~= items@.skip(i + 1));
        }
        let h = match &items[i] {
            JsonValue::Object(fs) => {
                let hostname = match obj_get(fs, "host") {
                    Some(JsonValue::Str(s)) => s.clone(),
                    _ => {
                        return Err("host".to_owned());
                    },
                };
                match obj_get(fs, "wss_port") {
                    Some(JsonValue::UInt(p)) => {
                        if *p <= 0xffffu64 {
                            Host { host: hostname, wss_port: *p as u16 }
                        } else {
                            return Err("wss_port".to_owned());
                        }
                    },
                    _ => {
                        return Err("wss_port".to_owned());
                    },
                }
            },
            _ => {
                return Err("host".to_owned());
            },
        };
        let ghost prev = out@;
        out.push(h);
        proof {
            match spec_host_entries(items@.skip(i + 1)) {
                Ok(rest) => {
                    assert(out@ + rest =~= prev + (seq![h] + rest));
                },
                Err(_) => {},
            }
        }
        i = i + 1;
    }
    proof {
        assert(items@.skip(n as int) =~= Seq::<JsonValue>::empty());
        assert(out@ + Seq::<Host>::empty() =~= out@);
    }
    Ok(out)
}

/// Reads the token and host list out of a danmu-info response.
pub fn parse_danmu_info(v: &JsonValue) -> (r: Result<(String, Vec<Host>), String>)
    ensures
        match r {
            Ok(th) => spec_danmu_info(*v) == Ok::<(String, Seq<Host>), Seq<char>>(
                (th.0, th.1@),
            ),
            Err(e) => spec_danmu_info(*v) == Err::<(String, Seq<Host>), Seq<char>>(e@),
        },
{
    let fs = match v {
        JsonValue::Object(fs) => fs,
        _ => {
            return Err("data".to_owned());
        },
    };
    let dfs = match obj_get(fs, "data") {
        Some(JsonValue::Object(dfs)) => dfs,
        _ => {
            return Err("data".to_owned());
        },
    };
    let token = match obj_get(dfs, "token") {
        Some(JsonValue::Str(s)) => s.clone(),
        _ => {
            return Err("token".to_owned());
        },
    };
    let items = match obj_get(dfs, "host_list") {
        Some(JsonValue::Array(items)) => items,
        _ => {
            return Err("host_list".to_owned());
        },
    };
    match parse_host_entries(items) {
        Ok(hosts) => Ok((token, hosts)),
        Err(e) => Err(e),
    }
}

// ---------------------------------------------------------------------------
// The session and its failover rule
// ---------------------------------------------------------------------------

impl Connector {
    /// A session assembled from the two resolved responses, starting
    /// at the first host.
    pub fn from_resolved(roomid: u64, uid: u64, key: String, host_list: Vec<Host>) -> (c:
        Connector)
        ensures
            c.roomid == roomid,
            c.uid == uid,
            c.key == key,
            c.host_index == 0,
            c.host_list == host_list,
            c.login_info is None,
    {
        Connector { roomid, uid, key, host_index: 0, host_list, login_info: None }
    }

    /// Replaces the carried login cookie text.
    pub fn set_login_info(&mut self, login_info: String)
        ensures
            final(self).login_info == Some(login_info),
            final(self).roomid == old(self).roomid,
            final(self).uid == old(self).uid,
            final(self).key == old(self).key,
            final(self).host_index == old(self).host_index,
            final(self).host_list == old(self).host_list,
    {
        self.login_info = Some(login_info);
    }

    /// Points the session at the host with the given index; on an
    /// index past the end, reports the list's length and changes
    /// nothing.
    pub fn use_host(&mut self, index: usize) -> (r: Result<String, usize>)
        ensures
            match r {
                Ok(h) => {
                    &&& index < old(self).host_list@.len()
                    &&& final(self).host_index == index
                    &&& h@ == old(self).host_list@[index as int].host@
                    &&& final(self).host_list == old(self).host_list
                    &&& final(self).roomid == old(self).roomid
                    &&& final(self).uid == old(self).uid
                    &&& final(self).key == old(self).key
                    &&& final(self).login_info == old(self).login_info
                },
                Err(n) => {
                    &&& n == old(self).host_list@.len()
                    &&& index >= n
                    &&& *final(self) == *old(self)
                },
            },
    {
        if index < self.host_list.len() {
            self.host_index = index;
            Ok(self.host_list[index].host.clone())
        } else {
            Err(self.host_list.len())
        }
    }

    /// Where a connect attempt starts: the first host, or the
    /// terminal error on an empty list.
    pub open spec fn spec_first_host(self) -> Result<usize, ConnectError> {
        if self.host_list@.len() == 0 {
            Err(ConnectError::HostListIsEmpty)
        } else {
            Ok(0usize)
        }
    }

    /// Where a connect attempt starts.
    pub fn first_host(&self) -> (r: Result<usize, ConnectError>)
        ensures
            r == self.spec_first_host(),
    {
        if self.host_list.len() == 0 {
            Err(ConnectError::HostListIsEmpty)
        } else {
            Ok(0)
        }
    }

    /// After the attempt at `index` failed: the next host to try, or
    /// the terminal error once every host has been tried.
    pub open spec fn spec_next_host(self, index: usize) -> Result<usize, ConnectError> {
        if index + 1 < self.host_list@.len() {
            Ok((index + 1) as usize)
        } else {
            Err(ConnectError::HandshakeError)
        }
    }

    /// After the attempt at `index` failed: the next host to try, or
    /// the terminal error once every host has been tried.
    pub fn next_host(&self, index: usize) -> (r: Result<usize, ConnectError>)
        requires
            index < self.host_list@.len(),
        ensures
            r == self.spec_next_host(index),
    {
        if index < self.host_list.len() - 1 {
            Ok(index + 1)
        } else {
            Err(ConnectError::HandshakeError)
        }
    }
}

/// Host failover: with two hosts of which the first fails, the
/// attempt starts at the first host, moves to the second, and
/// succeeds there by the second attempt, reporting that host; were
/// the second to fail as well, the whole connect would end in the
/// handshake error.
pub proof fn lemma_failover_second_host(c: Connector)
    requires
        c.host_list@.len() == 2,
    ensures
        c.spec_first_host() == Ok::<usize, ConnectError>(0usize),
        c.spec_next_host(0usize) == Ok::<usize, ConnectError>(1usize),
        c.spec_next_host(1usize) == Err::<usize, ConnectError>(ConnectError::HandshakeError),
{
}

} // verus!
