//! Federation identifiers. A remote or local object is named by a URL-shaped
//! identifier; the logic of this crate reads its components (scheme, host,
//! domain, port, path) as plain values held in [`ApubUrl`]. Parsing and
//! canonicalization are delegated to the `url` crate behind one trusted
//! wrapper.

use crate::error::FederationError;
use vstd::prelude::*;
use vstd::string::StringExecFns;

verus! {

/// Mathematical model of a parsed identifier: the canonical serialization
/// and the components the federation logic reads.
pub ghost struct UrlView {
    /// Canonical serialization, as the parser renders it.
    pub raw: Seq<char>,
    pub scheme: Seq<char>,
    /// Host component; absent for identifiers that cannot carry one.
    pub host: Option<Seq<char>>,
    /// Host component when it is a domain name (absent for IP hosts).
    pub domain: Option<Seq<char>>,
    /// Explicit, non-default port.
    pub port: Option<u16>,
    pub path: Seq<char>,
}

/// A parsed federation identifier, held as plain values.
pub struct ApubUrl {
    pub raw: String,
    pub scheme: String,
    pub host: Option<String>,
    pub domain: Option<String>,
    pub port: Option<u16>,
    pub path: String,
}

impl View for ApubUrl {
    type V = UrlView;

    open spec fn view(&self) -> UrlView {
        UrlView {
            raw: self.raw@,
            scheme: self.scheme@,
            host: match self.host {
                Some(h) => Some(h@),
                None => None,
            },
            domain: match self.domain {
                Some(d) => Some(d@),
                None => None,
            },
            port: self.port,
            path: self.path@,
        }
    }
}

/// What the `url` crate's parser yields on a given input: `None` where the
/// input is not an absolute URL, otherwise the canonical serialization and
/// the components. The result depends on the input characters alone.
pub uninterp spec fn url_parse(s: Seq<char>) -> Option<UrlView>;

/// Relies on `url::Url::parse` and the accessors `as_str`, `scheme`,
/// `host_str`, `domain`, `port` and `path`: together they yield a parse
/// verdict and components that depend on the input string alone.
#[verifier::external_body]
fn parse_url_raw(s: &str) -> (r: Option<ApubUrl>)
    ensures
        r is Some <==> url_parse(s@) is Some,
        r matches Some(u) ==> url_parse(s@) == Some(u@),
{
    match url::Url::parse(s) {
        Ok(u) => Some(ApubUrl {
            raw: u.as_str().to_string(),
            scheme: u.scheme().to_string(),
            host: u.host_str().map(|h| h.to_string()),
            domain: u.domain().map(|d| d.to_string()),
            port: u.port(),
            path: u.path().to_string(),
        }),
        Err(_) => None,
    }
}

impl ApubUrl {
    /// Parse an identifier string into its components.
    pub fn parse(s: &str) -> (r: Option<ApubUrl>)
        ensures
            r is Some <==> url_parse(s@) is Some,
            r matches Some(u) ==> url_parse(s@) == Some(u@),
    {
        parse_url_raw(s)
    }

    /// Parse an identifier string, rejecting what does not parse.
    pub fn parse_or_malformed(s: &str) -> (r: Result<ApubUrl, FederationError>)
        ensures
            match r {
                Ok(u) => url_parse(s@) == Some(u@),
                Err(e) => url_parse(s@) is None && e == FederationError::MalformedActorId,
            },
    {
        match parse_url_raw(s) {
            Some(u) => Ok(u),
            None => Err(FederationError::MalformedActorId),
        }
    }

    /// A field-for-field copy.
    pub fn duplicate(&self) -> (r: ApubUrl)
        ensures
            r@ == self@,
    {
        let r = ApubUrl {
            raw: self.raw.clone(),
            scheme: self.scheme.clone(),
            host: match &self.host {
                Some(h) => Some(h.clone()),
                None => None,
            },
            domain: match &self.domain {
                Some(d) => Some(d.clone()),
                None => None,
            },
            port: self.port,
            path: self.path.clone(),
        };
        assert(r@ == self@);
        r
    }
}

/// The decimal digit for one value below ten.
pub open spec fn dec_digit(d: nat) -> char
    recommends
        d < 10,
{
    if d == 0 {
        '0'
    } else if d == 1 {
        '1'
    } else if d == 2 {
        '2'
    } else if d == 3 {
        '3'
    } else if d == 4 {
        '4'
    } else if d == 5 {
        '5'
    } else if d == 6 {
        '6'
    } else if d == 7 {
        '7'
    } else if d == 8 {
        '8'
    } else {
        '9'
    }
}

/// Decimal representation of a number, most significant digit first,
/// without leading zeros (a single zero for zero itself).
pub open spec fn dec_rep(n: nat) -> Seq<char>
    decreases n,
{
    if n < 10 {
        seq![dec_digit(n)]
    } else {
        dec_rep(n / 10) + seq![dec_digit(n % 10)]
    }
}

fn dec_digit_str(d: u16) -> (r: &'static str)
    requires
        d < 10,
    ensures
        r@ == seq![dec_digit(d as nat)],
{
    let r: &'static str = if d == 0 {
        "0"
    } else if d == 1 {
        "1"
    } else if d == 2 {
        "2"
    } else if d == 3 {
        "3"
    } else if d == 4 {
        "4"
    } else if d == 5 {
        "5"
    } else if d == 6 {
        "6"
    } else if d == 7 {
        "7"
    } else if d == 8 {
        "8"
    } else {
        "9"
    };
    proof {
        reveal_strlit("0");
        reveal_strlit("1");
        reveal_strlit("2");
        reveal_strlit("3");
        reveal_strlit("4");
        reveal_strlit("5");
        reveal_strlit("6");
        reveal_strlit("7");
        reveal_strlit("8");
        reveal_strlit("9");
        assert(r@ =~= seq![dec_digit(d as nat)]);
    }
    r
}

/// Render a port number in decimal.
pub fn u16_to_dec(n: u16) -> (r: String)
    ensures
        r@ == dec_rep(n as nat),
    decreases n,
{
    if n < 10 {
        dec_digit_str(n).to_owned()
    } else {
        assert(n / 10 < n && 10 <= n) by (nonlinear_arith)
            requires
                n >= 10,
        ;
        let q = u16_to_dec(n / 10);
        let r = q.concat(dec_digit_str(n % 10));
        assert(r@ =~= dec_rep(n as nat));
        r
    }
}

} // verus!
