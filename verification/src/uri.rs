//! Building the URI handed to the protocol-upgrade handshake from the
//! configured server address: "ws://" followed by the dotted-decimal
//! address and the decimal port.

use vstd::prelude::*;
use vstd::string::StringExecFns;

use crate::config::SocketAddr;

verus! {

/// The character for one decimal digit.
pub open spec fn spec_digit(d: nat) -> char {
    if d == 0 {
        '0'
    } else if d == 1 {
        '1'
    } else if d == 2 {
        '2'
    } else if d == 3 {
        '3'
    } else if d == 4 {
        '4'
    } else if d == 5 {
        '5'
    } else if d == 6 {
        '6'
    } else if d == 7 {
        '7'
    } else if d == 8 {
        '8'
    } else {
        '9'
    }
}

/// The decimal digits of `n`, most significant first, without leading
/// zeroes (a lone zero for zero itself).
pub open spec fn spec_decimal(n: nat) -> Seq<char>
    decreases n,
{
    if n < 10 {
        seq![spec_digit(n)]
    } else {
        spec_decimal(n / 10).push(spec_digit(n % 10))
    }
}

/// The upgrade-handshake URI for an address.
pub open spec fn spec_ws_uri(addr: SocketAddr) -> Seq<char> {
    "ws://"@ + spec_decimal(addr.ip[0] as nat) + "."@ + spec_decimal(addr.ip[1] as nat) + "."@
        + spec_decimal(addr.ip[2] as nat) + "."@ + spec_decimal(addr.ip[3] as nat) + ":"@
        + spec_decimal(addr.port as nat)
}

/// The one-character string for a decimal digit.
fn digit_str(d: u8) -> (r: &'static str)
    requires
        d < 10,
    ensures
        r@ == seq![spec_digit(d as nat)],
{
    proof {
        reveal_strlit("0");
        reveal_strlit("1");
        reveal_strlit("2");
        reveal_strlit("3");
        reveal_strlit("4");
        reveal_strlit("5");
        reveal_strlit("6");
        reveal_strlit("7");
        reveal_strlit("8");
        reveal_strlit("9");
    }
    let r: &'static str = if d == 0 {
        "0"
    } else if d == 1 {
        "1"
    } else if d == 2 {
        "2"
    } else if d == 3 {
        "3"
    } else if d == 4 {
        "4"
    } else if d == 5 {
        "5"
    } else if d == 6 {
        "6"
    } else if d == 7 {
        "7"
    } else if d == 8 {
        "8"
    } else {
        "9"
    };
    proof {
        assert(r@ =~= seq![spec_digit(d as nat)]);
    }
    r
}

/// Appends the decimal rendering of `n`.
fn append_decimal(out: &mut String, n: u16)
    ensures
        final(out)@ == old(out)@ + spec_decimal(n as nat),
    decreases n,
{
    if n >= 10 {
        append_decimal(out, n / 10);
    }
    out.append(digit_str((n % 10) as u8));
    proof {
        assert(final(out)@ =~= old(out)@ + spec_decimal(n as nat));
    }
}

/// The URI the transport layer upgrades on: "ws://", the dotted-decimal
/// server address, a colon, and the decimal port.
pub fn ws_uri(addr: &SocketAddr) -> (r: String)
    ensures
        r@ == spec_ws_uri(*addr),
{
    let mut out = String::from_str("ws://");
    append_decimal(&mut out, addr.ip[0] as u16);
    out.append(".");
    append_decimal(&mut out, addr.ip[1] as u16);
    out.append(".");
    append_decimal(&mut out, addr.ip[2] as u16);
    out.append(".");
    append_decimal(&mut out, addr.ip[3] as u16);
    out.append(":");
    append_decimal(&mut out, addr.port);
    proof {
        assert(out@ =~= spec_ws_uri(*addr));
    }
    out
}

} // verus!
