//! Where the server listens.

use vstd::prelude::*;
use vstd::string::StringExecFns;
use crate::json::{
    json_parse, map_entries, open_value, parse, take_text, text_member, value_node, Node, NodeView,
};

verus! {

/// The address of the server: a host and a port, both as text.
#[derive(Clone, Debug)]
pub struct Config {
    ip: String,
    port: String,
}

/// The address that a host and a port make: the two joined by a colon.
pub open spec fn url_of(ip: Seq<char>, port: Seq<char>) -> Seq<char> {
    ip + ":"@ + port
}

/// The host and the port that a JSON value configures: it has to be an
/// object with the strings `ip` and `port` among its members.
pub open spec fn configured(v: serde_json::Value) -> Option<(Seq<char>, Seq<char>)> {
    match value_node(v) {
        NodeView::Object(m) => match (
            text_member(map_entries(m), "ip"@),
            text_member(map_entries(m), "port"@),
        ) {
            (Some(ip), Some(port)) => Some((ip, port)),
            _ => None,
        },
        _ => None,
    }
}

impl Config {
    pub closed spec fn ip(&self) -> Seq<char> {
        self.ip@
    }

    pub closed spec fn port(&self) -> Seq<char> {
        self.port@
    }

    /// The address made of `ip` and `port`.
    pub fn new(ip: String, port: String) -> (c: Self)
        ensures
            c.ip() == ip@,
            c.port() == port@,
    {
        Self { ip, port }
    }

    /// The address that a parsed configuration holds, if it holds one.
    pub fn from_value(v: serde_json::Value) -> (r: Option<Self>)
        ensures
            match r {
                Some(c) => configured(v) == Some((c.ip(), c.port())),
                None => configured(v) is None,
            },
    {
        let mut members = match open_value(v) {
            Node::Object(members) => members,
            _ => {
                return None;
            },
        };
        proof {
            reveal_strlit("ip");
            reveal_strlit("port");
            assert("ip"@[0] != "port"@[0]);
        }
        let ip = take_text(&mut members, "ip");
        let port = take_text(&mut members, "port");
        match (ip, port) {
            (Some(ip), Some(port)) => Some(Self { ip, port }),
            _ => None,
        }
    }

    /// The address that a configuration text holds: the text has to be the
    /// JSON of an object with the strings `ip` and `port`.
    pub fn from_json(text: &str) -> (r: Option<Self>)
        ensures
            match r {
                Some(c) => json_parse(text@) matches Some(v) && configured(v) == Some(
                    (c.ip(), c.port()),
                ),
                None => json_parse(text@) matches Some(v) ==> configured(v) is None,
            },
    {
        match parse(text) {
            Some(v) => Self::from_value(v),
            None => None,
        }
    }

    /// The address to bind or to connect to: `ip:port`.
    pub fn get_url(&self) -> (url: String)
        ensures
            url@ == url_of(self.ip(), self.port()),
    {
        let mut url = self.ip.clone();
        url.append(":");
        url.append(self.port.as_str());
        url
    }

    /// Replaces the port.
    pub fn change_port(&mut self, port: String)
        ensures
            final(self).port() == port@,
            final(self).ip() == old(self).ip(),
    {
        self.port = port;
    }

    /// Replaces the host.
    pub fn change_ip(&mut self, ip: String)
        ensures
            final(self).ip() == ip@,
            final(self).port() == old(self).port(),
    {
        self.ip = ip;
    }
}

} // verus!
