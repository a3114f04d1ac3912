//! The gateway's launch options, and the addresses derived from them.

use vstd::prelude::*;
use crate::path::segment_is;
use vstd::string::StringExecFns;

verus! {

/// How the gateway is launched.
#[derive(Clone, Debug, PartialEq, Eq)]
pub struct Opt {
    /// The database to serve; when set, all its data is exposed without login.
    pub db_url: Option<String>,
    /// The address to listen on.
    pub address: String,
    /// The port to listen on.
    pub port: u16,
    /// Whether to open a browser on the gateway's page.
    pub open: bool,
}

pub open spec fn digit_char(d: int) -> char {
    if d == 0 {
        '0'
    } else if d == 1 {
        '1'
    } else if d == 2 {
        '2'
    } else if d == 3 {
        '3'
    } else if d == 4 {
        '4'
    } else if d == 5 {
        '5'
    } else if d == 6 {
        '6'
    } else if d == 7 {
        '7'
    } else if d == 8 {
        '8'
    } else {
        '9'
    }
}

/// The decimal digits of `n`, without leading zeros.
pub open spec fn decimal_text(n: nat) -> Seq<char>
    decreases n,
{
    if n < 10 {
        seq![digit_char(n as int)]
    } else {
        decimal_text(n / 10).push(digit_char((n % 10) as int))
    }
}

proof fn lemma_digit(d: int)
    requires
        0 <= d < 10,
    ensures
        crate::params::is_digit(digit_char(d)),
        crate::params::digit_value(digit_char(d)) == d,
        digit_char(d) != '/',
{
}

/// The digits of a number read back give the number.
pub proof fn lemma_decimal_text(n: nat)
    ensures
        decimal_text(n).len() > 0,
        crate::params::all_digits(decimal_text(n)),
        crate::params::decimal_value(decimal_text(n)) == n,
        crate::path::is_plain_segment(decimal_text(n)),
    decreases n,
{
    if n >= 10 {
        lemma_decimal_text(n / 10);
        let s = decimal_text(n);
        assert(s.drop_last() =~= decimal_text(n / 10));
        lemma_digit((n % 10) as int);
        assert(s.last() == digit_char((n % 10) as int));
        assert((n / 10) * 10 + n % 10 == n);
        assert(crate::params::decimal_value(s) == crate::params::decimal_value(s.drop_last()) * 10
            + crate::params::digit_value(s.last()));
        assert forall|i: int| 0 <= i < s.len() implies crate::params::is_digit(#[trigger] s[i]) && s[i] != '/' by {
            if i < s.len() - 1 {
                assert(s[i] == decimal_text(n / 10)[i]);
            }
        }
    } else {
        let s = decimal_text(n);
        assert(s.drop_last() =~= Seq::<char>::empty());
        lemma_digit(n as int);
        assert(crate::params::decimal_value(s.drop_last()) == 0);
    }
}

/// The address that every interface of the machine listens on.
pub open spec fn any_address() -> Seq<char> {
    "0.0.0.0"@
}

/// The host a browser is pointed at: the local host where the gateway
/// listens on every interface, else the address itself.
pub open spec fn browser_host_of(address: Seq<char>) -> Seq<char> {
    if address == any_address() {
        "localhost"@
    } else {
        address
    }
}

fn digit_text(d: u16) -> (r: &'static str)
    requires
        d < 10,
    ensures
        r@ == seq![digit_char(d as int)],
{
    proof {
        reveal_strlit("0");
        reveal_strlit("1");
        reveal_strlit("2");
        reveal_strlit("3");
        reveal_strlit("4");
        reveal_strlit("5");
        reveal_strlit("6");
        reveal_strlit("7");
        reveal_strlit("8");
        reveal_strlit("9");
    }
    let r = if d == 0 {
        "0"
    } else if d == 1 {
        "1"
    } else if d == 2 {
        "2"
    } else if d == 3 {
        "3"
    } else if d == 4 {
        "4"
    } else if d == 5 {
        "5"
    } else if d == 6 {
        "6"
    } else if d == 7 {
        "7"
    } else if d == 8 {
        "8"
    } else {
        "9"
    };
    assert(r@ =~= seq![digit_char(d as int)]);
    r
}

/// Appends the decimal digits of `n` to `out`.
pub fn append_decimal(out: &mut String, n: u16)
    ensures
        final(out)@ == old(out)@ + decimal_text(n as nat),
    decreases n,
{
    if n >= 10 {
        append_decimal(out, n / 10);
    }
    out.append(digit_text(n % 10));
    assert(n >= 10 ==> decimal_text(n as nat) == decimal_text((n / 10) as nat).push(
        digit_char((n % 10) as int),
    ));
    assert(old(out)@ + decimal_text(n as nat) =~= final(out)@) by {
        if n >= 10 {
            assert(old(out)@ + decimal_text(n as nat) =~= (old(out)@ + decimal_text(
                (n / 10) as nat,
            )) + seq![digit_char((n % 10) as int)]);
        }
    }
}

impl Opt {
    /// The options when none are given: no database, every interface,
    /// port 8000, no browser.
    pub fn defaults() -> (r: Opt)
        ensures
            r.db_url is None,
            r.address@ == any_address(),
            r.port == 8000,
            !r.open,
    {
        Opt { db_url: None, address: String::from_str("0.0.0.0"), port: 8000, open: false }
    }

    /// The host a browser is pointed at.
    pub fn browser_host(&self) -> (r: String)
        ensures
            r@ == browser_host_of(self.address@),
    {
        if segment_is(&self.address, "0.0.0.0") {
            String::from_str("localhost")
        } else {
            self.address.clone()
        }
    }

    /// The page a browser is pointed at: `http://host:port`.
    pub fn browser_uri(&self) -> (r: String)
        ensures
            r@ == "http://"@ + browser_host_of(self.address@) + ":"@ + decimal_text(
                self.port as nat,
            ),
    {
        let mut r = String::from_str("http://");
        let host = self.browser_host();
        r.append(host.as_str());
        r.append(":");
        append_decimal(&mut r, self.port);
        r
    }

    /// The socket address to listen on: `address:port`.
    pub fn listen_address(&self) -> (r: String)
        ensures
            r@ == self.address@ + ":"@ + decimal_text(self.port as nat),
    {
        let mut r = self.address.clone();
        r.append(":");
        append_decimal(&mut r, self.port);
        r
    }
}

} // verus!
