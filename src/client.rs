//! Where a transport-dialect client connects to.
use vstd::prelude::*;
use vstd::string::StringExecFns;

use crate::connection::{Connection, ConnectionState};
use crate::json::text;
use crate::GraphqlWsProtocol;

verus! {

/// The character of decimal digit `n`.
pub open spec fn digit(n: nat) -> char {
    ((n + 48) as u8) as char
}

/// `n` written in decimal.
pub open spec fn decimal(n: nat) -> Seq<char>
    decreases n,
{
    if n < 10 {
        seq![digit(n)]
    } else {
        decimal(n / 10).push(digit(n % 10))
    }
}

/// The address `{scheme}://{host}:{port}{path}`.
pub open spec fn address(scheme: Seq<char>, host: Seq<char>, port: nat, path: Seq<char>) -> Seq<char> {
    scheme + "://"@ + host + ":"@ + decimal(port) + path
}

fn digit_text(n: u16) -> (r: &'static str)
    requires
        n < 10,
    ensures
        r@ == seq![digit(n as nat)],
{
    proof {
        reveal_strlit("0");
        reveal_strlit("1");
        reveal_strlit("2");
        reveal_strlit("3");
        reveal_strlit("4");
        reveal_strlit("5");
        reveal_strlit("6");
        reveal_strlit("7");
        reveal_strlit("8");
        reveal_strlit("9");
    }
    let r = match n {
        0 => "0",
        1 => "1",
        2 => "2",
        3 => "3",
        4 => "4",
        5 => "5",
        6 => "6",
        7 => "7",
        8 => "8",
        _ => "9",
    };
    assert(r@ =~= seq![digit(n as nat)]);
    r
}

/// `n` in decimal, without leading zeros.
pub(crate) fn decimal_text(n: u16) -> (r: String)
    ensures
        r@ == decimal(n as nat),
    decreases n,
{
    if n < 10 {
        text(digit_text(n))
    } else {
        let mut s = decimal_text(n / 10);
        s.append(digit_text(n % 10));
        s
    }
}

/// Builds `{scheme}://{host}:{port}{path}`.
pub(crate) fn format_address(scheme: &str, host: &str, port: u16, path: &str) -> (r: String)
    ensures
        r@ == address(scheme@, host@, port as nat, path@),
{
    let mut url = text(scheme);
    url.append("://");
    url.append(host);
    url.append(":");
    let digits = decimal_text(port);
    url.append(digits.as_str());
    url.append(path);
    url
}

/// Where to open a transport-dialect connection.
pub struct GraphqlWsClientBuilder {
    url: String,
}

impl GraphqlWsClientBuilder {
    pub closed spec fn url_of(&self) -> Seq<char> {
        self.url@
    }

    pub fn from_url(url: &str) -> (r: GraphqlWsClientBuilder)
        ensures
            r.url_of() == url@,
    {
        GraphqlWsClientBuilder { url: text(url) }
    }

    /// The address `{ws_proto}://{host}:{port}{path}`.
    pub fn from(ws_proto: &str, host: &str, port: u16, path: &str) -> (r: GraphqlWsClientBuilder)
        ensures
            r.url_of() == address(ws_proto@, host@, port as nat, path@),
    {
        GraphqlWsClientBuilder { url: format_address(ws_proto, host, port, path) }
    }

    pub fn url(&self) -> (r: &str)
        ensures
            r@ == self.url_of(),
    {
        self.url.as_str()
    }

    pub fn get_protocol(&self) -> (r: GraphqlWsProtocol)
        ensures
            r == GraphqlWsProtocol::OFFICIAL,
    {
        GraphqlWsProtocol::OFFICIAL
    }

    /// The protocol state of a connection to open from here.
    pub fn connection(&self) -> (r: Connection)
        ensures
            r.dialect_of() == GraphqlWsProtocol::OFFICIAL,
            r.state_of() == ConnectionState::Disconnected,
    {
        Connection::new(GraphqlWsProtocol::OFFICIAL)
    }
}

} // verus!
