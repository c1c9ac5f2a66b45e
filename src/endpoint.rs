//! The listening endpoint: the interface and TCP port that the hub binds,
//! and the addresses written from them.
use vstd::prelude::*;
use vstd::string::StringExecFns;

verus! {

/// The interface the hub listens on unless configured otherwise.
pub const LOOPBACK: &'static str = "127.0.0.1";

/// The TCP port the hub listens on unless configured otherwise.
pub const DEFAULT_PORT: u16 = 8080;

/// The scheme of the address a client connects to.
pub const WS_SCHEME: &'static str = "ws://";

/// The character for a decimal digit.
pub open spec fn digit_char(d: nat) -> char {
    ((d + 48) as u8) as char
}

/// `n` written in decimal, without leading zeros.
pub open spec fn decimal(n: nat) -> Seq<char>
    decreases n,
{
    if n < 10 {
        seq![digit_char(n)]
    } else {
        decimal(n / 10).push(digit_char(n % 10))
    }
}

/// `"<host>:<port>"`.
pub open spec fn authority_of(host: Seq<char>, port: u16) -> Seq<char> {
    host + seq![':'] + decimal(port as nat)
}

fn digit_str(d: u16) -> (r: &'static str)
    requires
        d < 10,
    ensures
        r@ == seq![digit_char(d as nat)],
{
    proof {
        reveal_strlit("0");
        reveal_strlit("1");
        reveal_strlit("2");
        reveal_strlit("3");
        reveal_strlit("4");
        reveal_strlit("5");
        reveal_strlit("6");
        reveal_strlit("7");
        reveal_strlit("8");
        reveal_strlit("9");
    }
    match d {
        0 => "0",
        1 => "1",
        2 => "2",
        3 => "3",
        4 => "4",
        5 => "5",
        6 => "6",
        7 => "7",
        8 => "8",
        _ => "9",
    }
}

/// Appends `n` in decimal to `s`.
pub fn push_decimal(s: &mut String, n: u16)
    ensures
        final(s)@ == old(s)@ + decimal(n as nat),
    decreases n,
{
    if n >= 10 {
        push_decimal(s, n / 10);
    }
    s.append(digit_str(n % 10));
}

/// Where the hub listens.
pub struct Endpoint {
    pub bind_address: String,
    pub bind_port: u16,
}

impl Endpoint {
    pub fn new(bind_address: String, bind_port: u16) -> (e: Endpoint)
        ensures
            e.bind_address@ == bind_address@,
            e.bind_port == bind_port,
    {
        Endpoint { bind_address, bind_port }
    }

    /// The loopback interface on the default port.
    pub fn local() -> (e: Endpoint)
        ensures
            e.bind_address@ == LOOPBACK@,
            e.bind_port == DEFAULT_PORT,
    {
        Endpoint { bind_address: String::from_str(LOOPBACK), bind_port: DEFAULT_PORT }
    }

    /// `"<bind_address>:<bind_port>"`.
    pub fn authority(&self) -> (r: String)
        ensures
            r@ == authority_of(self.bind_address@, self.bind_port),
    {
        let mut r = String::from_str(self.bind_address.as_str());
        r.append(":");
        proof {
            reveal_strlit(":");
        }
        push_decimal(&mut r, self.bind_port);
        r
    }

    /// `"ws://<bind_address>:<bind_port>"`, the address a client connects to.
    pub fn ws_uri(&self) -> (r: String)
        ensures
            r@ == WS_SCHEME@ + authority_of(self.bind_address@, self.bind_port),
    {
        let a = self.authority();
        let mut r = String::from_str(WS_SCHEME);
        r.append(a.as_str());
        r
    }
}

} // verus!
