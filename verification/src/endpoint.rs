//! Addresses as plain values.

use vstd::prelude::*;
use vstd::string::*;

verus! {

/// An IPv4 address, by its four octets in the order they are written.
#[derive(Clone, Copy, Debug, PartialEq, Eq, Structural)]
pub struct Ipv4 {
    pub a: u8,
    pub b: u8,
    pub c: u8,
    pub d: u8,
}

/// An IP address of either family.
#[derive(Clone, Copy, Debug, PartialEq, Eq, Structural)]
pub enum IpAddress {
    V4(Ipv4),
    /// An IPv6 address, by its 128 bits, most significant first.
    V6(u128),
}

/// An address and a port: the parsed form of `address:port`.
#[derive(Clone, Copy, Debug, PartialEq, Eq, Structural)]
pub struct Endpoint {
    pub ip: IpAddress,
    pub port: u16,
}

/// The character for one decimal digit.
pub open spec fn digit(d: int) -> char {
    if d == 0 {
        '0'
    } else if d == 1 {
        '1'
    } else if d == 2 {
        '2'
    } else if d == 3 {
        '3'
    } else if d == 4 {
        '4'
    } else if d == 5 {
        '5'
    } else if d == 6 {
        '6'
    } else if d == 7 {
        '7'
    } else if d == 8 {
        '8'
    } else {
        '9'
    }
}

/// An octet in decimal, without leading zeros.
pub open spec fn decimal(n: u8) -> Seq<char> {
    if n < 10 {
        seq![digit(n as int)]
    } else if n < 100 {
        seq![digit(n as int / 10), digit(n as int % 10)]
    } else {
        seq![digit(n as int / 100), digit((n as int / 10) % 10), digit(n as int % 10)]
    }
}

fn digit_text(d: u8) -> (s: &'static str)
    requires
        d < 10,
    ensures
        s@ == seq![digit(d as int)],
{
    proof {
        reveal_strlit("0");
        reveal_strlit("1");
        reveal_strlit("2");
        reveal_strlit("3");
        reveal_strlit("4");
        reveal_strlit("5");
        reveal_strlit("6");
        reveal_strlit("7");
        reveal_strlit("8");
        reveal_strlit("9");
    }
    let s: &'static str = match d {
        0 => "0",
        1 => "1",
        2 => "2",
        3 => "3",
        4 => "4",
        5 => "5",
        6 => "6",
        7 => "7",
        8 => "8",
        _ => "9",
    };
    assert(s@ =~= seq![digit(d as int)]);
    s
}

fn decimal_text(n: u8) -> (s: String)
    ensures
        s@ == decimal(n),
{
    let s = if n < 10 {
        String::from_str(digit_text(n))
    } else if n < 100 {
        String::from_str(digit_text(n / 10)).concat(digit_text(n % 10))
    } else {
        String::from_str(digit_text(n / 100)).concat(digit_text((n / 10) % 10)).concat(
            digit_text(n % 10),
        )
    };
    assert(s@ =~= decimal(n));
    s
}

impl Ipv4 {
    /// The dotted form of the address.
    pub open spec fn text(self) -> Seq<char> {
        decimal(self.a) + "."@ + decimal(self.b) + "."@ + decimal(self.c) + "."@ + decimal(
            self.d,
        )
    }

    /// Writes the address in dotted form, as in `224.0.0.1`.
    pub fn to_text(&self) -> (s: String)
        ensures
            s@ == self.text(),
    {
        let a = decimal_text(self.a);
        let b = decimal_text(self.b);
        let c = decimal_text(self.c);
        let d = decimal_text(self.d);
        a.concat(".").concat(b.as_str()).concat(".").concat(c.as_str()).concat(".").concat(
            d.as_str(),
        )
    }
}

} // verus!
