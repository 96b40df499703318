use vstd::prelude::*;

use crate::candidate::CandidateError;

verus! {

/// What `url::Url::parse` makes of a text, read back as
/// (serialization, scheme, host, explicit port).
pub uninterp spec fn parsed_url(text: Seq<char>) -> Option<(Seq<char>, Seq<char>, Option<Seq<char>>, Option<u16>)>;

/// A registrar URL, held as the parts that candidate construction reads.
#[derive(Debug, Clone, PartialEq, Eq)]
pub struct RegistrarUrl {
    pub text: String,
    pub scheme: String,
    pub host: Option<String>,
    pub port: Option<u16>,
}

pub open spec fn opt_string_view(s: Option<String>) -> Option<Seq<char>> {
    match s {
        Some(h) => Some(h@),
        None => None,
    }
}

impl View for RegistrarUrl {
    type V = (Seq<char>, Seq<char>, Option<Seq<char>>, Option<u16>);

    open spec fn view(&self) -> Self::V {
        (self.text@, self.scheme@, opt_string_view(self.host), self.port)
    }
}

/// Relies on `url::Url::parse`, read back through `as_str`, `scheme`,
/// `host_str` and `port`: the outcome depends on the text alone.
#[verifier::external_body]
fn parse_with_url_crate(text: &str) -> (r: Option<RegistrarUrl>)
    ensures
        match parsed_url(text@) {
            Some(p) => r matches Some(u) && u@ == p,
            None => r is None,
        },
{
    match url::Url::parse(text) {
        Ok(u) => Some(RegistrarUrl {
            text: u.as_str().to_string(),
            scheme: u.scheme().to_string(),
            host: u.host_str().map(|h| h.to_string()),
            port: u.port(),
        }),
        Err(_) => None,
    }
}

/// The port used when the URL gives none; `None` for an unsupported scheme.
pub open spec fn default_port_spec(scheme: Seq<char>) -> Option<u16> {
    if scheme == "https"@ {
        Some(443)
    } else if scheme == "coaps"@ {
        Some(5684)
    } else {
        None
    }
}

/// The port a candidate built from `u` connects to: the explicit port if
/// there is one, else the scheme's default; `None` for an unsupported scheme.
pub open spec fn effective_port(u: (Seq<char>, Seq<char>, Option<Seq<char>>, Option<u16>)) -> Option<u16> {
    match default_port_spec(u.1) {
        None => None,
        Some(d) => match u.3 {
            Some(p) => Some(p),
            None => Some(d),
        },
    }
}

/// The name handed to the resolver for a URL host: an IPv6 literal loses
/// the brackets it carries in a URL (`[fe80::1]` becomes `fe80::1`).
pub open spec fn lookup_name(h: Seq<char>) -> Seq<char> {
    if h.len() >= 2 && h[0] == '[' && h[h.len() - 1] == ']' {
        h.subrange(1, h.len() - 1)
    } else {
        h
    }
}

fn unbracketed(h: &String) -> (r: String)
    ensures
        r@ == lookup_name(h@),
{
    let s = h.as_str();
    let n = s.unicode_len();
    if n >= 2 && s.get_char(0) == '[' && s.get_char(n - 1) == ']' {
        String::from_str(s.substring_char(1, n - 1))
    } else {
        h.clone()
    }
}

/// What to resolve for a URL, and the port to pair each address with.
#[derive(Debug, Clone, PartialEq, Eq)]
pub struct ResolveTarget {
    pub host: String,
    pub port: u16,
}

impl RegistrarUrl {
    /// Parses an absolute URL.
    pub fn parse(text: &str) -> (r: Result<RegistrarUrl, CandidateError>)
        ensures
            match parsed_url(text@) {
                Some(p) => r matches Ok(u) && u@ == p,
                None => r == Err::<RegistrarUrl, CandidateError>(CandidateError::InvalidUrl),
            },
    {
        match parse_with_url_crate(text) {
            Some(u) => Ok(u),
            None => Err(CandidateError::InvalidUrl),
        }
    }
}

/// Default port of a scheme: `https` is 443, `coaps` is 5684, any other
/// scheme has none.
pub fn default_port(scheme: &String) -> (r: Option<u16>)
    ensures
        r == default_port_spec(scheme@),
{
    let https = String::from_str("https");
    if *scheme == https {
        return Some(443);
    }
    let coaps = String::from_str("coaps");
    if *scheme == coaps {
        Some(5684)
    } else {
        None
    }
}

/// Decides what must be resolved for `url`, before any resolution: an
/// unsupported scheme is refused first, then a URL without a host.
pub fn resolution_target(url: &RegistrarUrl) -> (r: Result<ResolveTarget, CandidateError>)
    ensures
        default_port_spec(url.scheme@) is None ==> r == Err::<ResolveTarget, CandidateError>(
            CandidateError::SchemeError,
        ),
        default_port_spec(url.scheme@) is Some && url.host is None ==> r == Err::<
            ResolveTarget,
            CandidateError,
        >(CandidateError::ResolutionError),
        default_port_spec(url.scheme@) is Some && url.host is Some ==> (r matches Ok(t) && t.host@
            == lookup_name(url.host.unwrap()@) && Some(t.port) == effective_port(url@)),
{
    let d = match default_port(&url.scheme) {
        Some(d) => d,
        None => return Err(CandidateError::SchemeError),
    };
    let port = match url.port {
        Some(p) => p,
        None => d,
    };
    match &url.host {
        Some(h) => Ok(ResolveTarget { host: unbracketed(h), port }),
        None => Err(CandidateError::ResolutionError),
    }
}

/// Default ports: a URL with scheme `https` and no explicit port connects
/// to 443, one with scheme `coaps` and no explicit port to 5684, and an
/// explicit port of either scheme is kept.
pub proof fn lemma_default_ports(u: (Seq<char>, Seq<char>, Option<Seq<char>>, Option<u16>))
    ensures
        u.1 == "https"@ && u.3 is None ==> effective_port(u) == Some(443u16),
        u.1 == "coaps"@ && u.3 is None ==> effective_port(u) == Some(5684u16),
        (u.1 == "https"@ || u.1 == "coaps"@) && u.3 is Some ==> effective_port(u) == u.3,
{
    reveal_strlit("https");
    reveal_strlit("coaps");
    assert("coaps"@[0] != "https"@[0]);
}

} // verus!
