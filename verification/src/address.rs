//! The network endpoint of the store and its rendering as a URL.

use vstd::prelude::*;

verus! {

/// The port a store listens on when nothing else is configured.
pub const DEFAULT_PORT: u16 = 6379;

/// The character that writes the decimal digit `d`.
pub open spec fn digit_char(d: nat) -> char
    recommends
        d < 10,
{
    if d == 0 {
        '0'
    } else if d == 1 {
        '1'
    } else if d == 2 {
        '2'
    } else if d == 3 {
        '3'
    } else if d == 4 {
        '4'
    } else if d == 5 {
        '5'
    } else if d == 6 {
        '6'
    } else if d == 7 {
        '7'
    } else if d == 8 {
        '8'
    } else {
        '9'
    }
}

/// The decimal numeral of `n`, most significant digit first, without
/// leading zeros.
pub open spec fn decimal(n: nat) -> Seq<char>
    decreases n,
{
    if n < 10 {
        seq![digit_char(n)]
    } else {
        decimal(n / 10).push(digit_char(n % 10))
    }
}

/// What an address is: a scheme, a host and a port.
pub struct AddressView {
    pub scheme: Seq<char>,
    pub host: Seq<char>,
    pub port: nat,
}

/// The URL that names an endpoint: `scheme://host:port`.
pub open spec fn url_of(a: AddressView) -> Seq<char> {
    a.scheme + "://"@ + a.host + ":"@ + decimal(a.port)
}

/// The endpoint of the key-value store. It is fixed when it is built and
/// only read afterwards.
#[derive(Debug)]
pub struct StoreAddress {
    scheme: String,
    host: String,
    port: u16,
}

impl View for StoreAddress {
    type V = AddressView;

    closed spec fn view(&self) -> AddressView {
        AddressView { scheme: self.scheme@, host: self.host@, port: self.port as nat }
    }
}

fn digit_text(d: u16) -> (text: &'static str)
    requires
        d < 10,
    ensures
        text@ == seq![digit_char(d as nat)],
{
    proof {
        reveal_strlit("0");
        reveal_strlit("1");
        reveal_strlit("2");
        reveal_strlit("3");
        reveal_strlit("4");
        reveal_strlit("5");
        reveal_strlit("6");
        reveal_strlit("7");
        reveal_strlit("8");
        reveal_strlit("9");
    }
    let text = if d == 0 {
        "0"
    } else if d == 1 {
        "1"
    } else if d == 2 {
        "2"
    } else if d == 3 {
        "3"
    } else if d == 4 {
        "4"
    } else if d == 5 {
        "5"
    } else if d == 6 {
        "6"
    } else if d == 7 {
        "7"
    } else if d == 8 {
        "8"
    } else {
        "9"
    };
    assert(text@ =~= seq![digit_char(d as nat)]);
    text
}

/// Appends the decimal numeral of `n` to `out`.
fn append_decimal(out: &mut String, n: u16)
    ensures
        final(out)@ == old(out)@ + decimal(n as nat),
    decreases n,
{
    if n < 10 {
        out.append(digit_text(n));
    } else {
        append_decimal(out, n / 10);
        out.append(digit_text(n % 10));
        assert(out@ =~= old(out)@ + decimal(n as nat));
    }
}

impl StoreAddress {
    /// An address from its three parts.
    pub fn new(scheme: &str, host: &str, port: u16) -> (address: StoreAddress)
        ensures
            address@ == (AddressView { scheme: scheme@, host: host@, port: port as nat }),
    {
        StoreAddress { scheme: String::from_str(scheme), host: String::from_str(host), port }
    }

    /// The scheme, such as `redis`.
    pub fn scheme(&self) -> (scheme: &str)
        ensures
            scheme@ == self@.scheme,
    {
        self.scheme.as_str()
    }

    /// The host, by name or by number.
    pub fn host(&self) -> (host: &str)
        ensures
            host@ == self@.host,
    {
        self.host.as_str()
    }

    /// The port.
    pub fn port(&self) -> (port: u16)
        ensures
            port as nat == self@.port,
    {
        self.port
    }

    /// The URL of this endpoint, `scheme://host:port`.
    pub fn url(&self) -> (text: String)
        ensures
            text@ == url_of(self@),
    {
        let mut text = self.scheme.clone();
        text.append("://");
        text.append(self.host.as_str());
        text.append(":");
        append_decimal(&mut text, self.port);
        text
    }
}

} // verus!
