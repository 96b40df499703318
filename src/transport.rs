use vstd::prelude::*;

use crate::candidate::Endpoint;

verus! {

/// Path of the registrar's voucher-request resource.
pub const REQUEST_VOUCHER_PATH: &'static str = "/.well-known/brski/requestvoucher";

/// The decimal digit for `d < 10`.
pub open spec fn digit_char(d: nat) -> char {
    if d == 0 {
        '0'
    } else if d == 1 {
        '1'
    } else if d == 2 {
        '2'
    } else if d == 3 {
        '3'
    } else if d == 4 {
        '4'
    } else if d == 5 {
        '5'
    } else if d == 6 {
        '6'
    } else if d == 7 {
        '7'
    } else if d == 8 {
        '8'
    } else {
        '9'
    }
}

/// Decimal form of `n`, without sign or leading zeros.
pub open spec fn decimal(n: nat) -> Seq<char>
    decreases n,
{
    if n < 10 {
        seq![digit_char(n)]
    } else {
        decimal(n / 10).push(digit_char(n % 10))
    }
}

/// The authority of an endpoint as in a URI: `host:port`, with an IPv6
/// address (one that contains `:`) in brackets.
pub open spec fn authority_of(e: (Seq<char>, u16)) -> Seq<char> {
    let host = if e.0.contains(':') {
        seq!['['] + e.0 + seq![']']
    } else {
        e.0
    };
    host + seq![':'] + decimal(e.1 as nat)
}

/// The one-character text of the digit `d`.
fn digit_text(d: u16) -> (r: &'static str)
    requires
        d < 10,
    ensures
        r@ == seq![digit_char(d as nat)],
{
    if d == 0 {
        proof {
            reveal_strlit("0");
        }
        "0"
    } else if d == 1 {
        proof {
            reveal_strlit("1");
        }
        "1"
    } else if d == 2 {
        proof {
            reveal_strlit("2");
        }
        "2"
    } else if d == 3 {
        proof {
            reveal_strlit("3");
        }
        "3"
    } else if d == 4 {
        proof {
            reveal_strlit("4");
        }
        "4"
    } else if d == 5 {
        proof {
            reveal_strlit("5");
        }
        "5"
    } else if d == 6 {
        proof {
            reveal_strlit("6");
        }
        "6"
    } else if d == 7 {
        proof {
            reveal_strlit("7");
        }
        "7"
    } else if d == 8 {
        proof {
            reveal_strlit("8");
        }
        "8"
    } else {
        proof {
            reveal_strlit("9");
        }
        "9"
    }
}

/// Appends the decimal form of `n` to `text`.
fn append_decimal(text: &mut String, n: u16)
    ensures
        final(text)@ == old(text)@ + decimal(n as nat),
    decreases n,
{
    if n >= 10 {
        append_decimal(text, n / 10);
    }
    text.append(digit_text(n % 10));
    proof {
        assert(final(text)@ =~= old(text)@ + decimal(n as nat));
    }
}

/// Whether `http` builds a URI from scheme `https`, this authority and this
/// path.
pub uninterp spec fn http_accepts(authority: Seq<char>, path: Seq<char>) -> bool;

/// Relies on `http::uri::Builder` (scheme `https`, then the authority and
/// the path) and on `Uri`'s `Display`, which writes `scheme://`, the
/// authority and the path as given. `None` when `http` refuses a part; the
/// builder's result depends on its arguments alone.
#[verifier::external_body]
fn https_uri(authority: &str, path: &str) -> (r: Option<String>)
    requires
        path@.len() > 0,
        path@[0] == '/',
        !path@.contains('?'),
        !path@.contains('#'),
    ensures
        r is Some <==> http_accepts(authority@, path@),
        r matches Some(u) ==> u@ == seq!['h', 't', 't', 'p', 's', ':', '/', '/'] + authority@ + path@,
{
    let built = http::uri::Builder::new()
        .scheme("https")
        .authority(authority)
        .path_and_query(path)
        .build();
    match built {
        Ok(u) => Some(u.to_string()),
        Err(_) => None,
    }
}

fn has_colon(s: &str) -> (r: bool)
    ensures
        r == s@.contains(':'),
{
    let n = s.unicode_len();
    let mut i: usize = 0;
    while i < n
        invariant
            n == s@.len(),
            i <= n,
            forall|j: int| 0 <= j < i ==> s@[j] != ':',
        decreases n - i,
    {
        if s.get_char(i) == ':' {
            return true;
        }
        i += 1;
    }
    false
}

impl Endpoint {
    /// The endpoint as a URI authority, e.g. `192.0.2.1:443` or
    /// `[fe80::1234]:8443`.
    pub fn authority(&self) -> (r: String)
        ensures
            r@ == authority_of(self@),
    {
        let mut text = if has_colon(self.address.as_str()) {
            let mut t = String::from_str("[");
            t.append(self.address.as_str());
            t.append("]");
            t
        } else {
            self.address.clone()
        };
        text.append(":");
        append_decimal(&mut text, self.port);
        proof {
            reveal_strlit("[");
            reveal_strlit("]");
            reveal_strlit(":");
            assert(text@ =~= authority_of(self@));
        }
        text
    }
}

/// The URI of the voucher-request resource on the registrar at `e`:
/// `https://` + its authority + the resource path, when `http` accepts
/// the authority.
pub fn voucher_request_uri(e: &Endpoint) -> (r: Option<String>)
    ensures
        r is Some <==> http_accepts(authority_of(e@), REQUEST_VOUCHER_PATH@),
        r matches Some(u) ==> u@ == seq!['h', 't', 't', 'p', 's', ':', '/', '/'] + authority_of(e@)
            + REQUEST_VOUCHER_PATH@,
{
    let authority = e.authority();
    proof {
        reveal_strlit("/.well-known/brski/requestvoucher");
    }
    https_uri(authority.as_str(), REQUEST_VOUCHER_PATH)
}

} // verus!
