//! The service record resolver.
//!
//! Given one resolved announcement, derive the fetch target: host, port,
//! request path and transport scheme. The policy is fixed:
//!
//! - host: the first address of the announcement; an empty address list is
//!   an error;
//! - path: the `td` property, or the well-known default path when absent;
//! - scheme: the `scheme` property verbatim when present; otherwise the
//!   legacy `tls` property, where exactly the value `1` means `https` and
//!   anything else means `http`; otherwise `http`.

use vstd::prelude::*;
use vstd::string::StringExecFns;
use crate::announcement::Announcement;
use crate::error::Error;
use crate::props::{kv_view, lookup};

verus! {

/// The request path used when an announcement does not advertise `td`.
pub open spec fn default_path() -> Seq<char> {
    "/.well-known/wot"@
}

/// The request path derived from the `td` property: its value when
/// advertised, the well-known default otherwise.
pub open spec fn path_of(td: Option<Seq<char>>) -> Seq<char> {
    match td {
        Some(p) => p,
        None => default_path(),
    }
}

/// The transport scheme derived from the `scheme` and `tls` properties.
///
/// `scheme` wins when present and is used verbatim. The `tls` fallback
/// exists for backward compatibility with advertisers that only emitted
/// `tls`: the value `1` means `https`, any other value means `http`, and
/// with neither property the scheme is `http`.
pub open spec fn scheme_of(scheme: Option<Seq<char>>, tls: Option<Seq<char>>) -> Seq<char> {
    match scheme {
        Some(s) => s,
        None => match tls {
            Some(t) => if t == "1"@ {
                "https"@
            } else {
                "http"@
            },
            None => "http"@,
        },
    }
}

/// The character for the decimal digit `d`.
pub open spec fn digit_char(d: nat) -> char
    recommends
        d < 10,
{
    if d == 0 {
        '0'
    } else if d == 1 {
        '1'
    } else if d == 2 {
        '2'
    } else if d == 3 {
        '3'
    } else if d == 4 {
        '4'
    } else if d == 5 {
        '5'
    } else if d == 6 {
        '6'
    } else if d == 7 {
        '7'
    } else if d == 8 {
        '8'
    } else {
        '9'
    }
}

/// The decimal representation of `n`, most significant digit first, with
/// no leading zero except for `n == 0` itself.
pub open spec fn dec_rep(n: nat) -> Seq<char>
    decreases n,
{
    if n < 10 {
        seq![digit_char(n)]
    } else {
        dec_rep(n / 10) + seq![digit_char(n % 10)]
    }
}

/// The one-character string for the decimal digit `d`.
fn digit_str(d: u16) -> (s: &'static str)
    requires
        d < 10,
    ensures
        s@ == seq![digit_char(d as nat)],
{
    proof {
        reveal_strlit("0");
        reveal_strlit("1");
        reveal_strlit("2");
        reveal_strlit("3");
        reveal_strlit("4");
        reveal_strlit("5");
        reveal_strlit("6");
        reveal_strlit("7");
        reveal_strlit("8");
        reveal_strlit("9");
    }
    let s = match d {
        0 => "0",
        1 => "1",
        2 => "2",
        3 => "3",
        4 => "4",
        5 => "5",
        6 => "6",
        7 => "7",
        8 => "8",
        _ => "9",
    };
    proof {
        assert(s@ =~= seq![digit_char(d as nat)]);
    }
    s
}

/// Render `n` in decimal.
pub fn u16_to_dec(n: u16) -> (s: String)
    ensures
        s@ == dec_rep(n as nat),
    decreases n,
{
    if n < 10 {
        let s = digit_str(n).to_owned();
        proof {
            assert(s@ =~= dec_rep(n as nat));
        }
        s
    } else {
        let mut s = u16_to_dec(n / 10);
        s.append(digit_str(n % 10));
        proof {
            assert(s@ =~= dec_rep(n as nat));
        }
        s
    }
}

/// The fetch target derived from one announcement: where the document is
/// requested from, and over which scheme. Ephemeral: computed per
/// announcement, not retained.
#[derive(Debug, Clone)]
pub struct ResolvedTarget {
    /// Host to connect to: the first advertised address.
    pub host: String,
    /// Port to connect to.
    pub port: u16,
    /// Request path of the document.
    pub path: String,
    /// Transport scheme, `http` or `https` under the documented policy, or
    /// whatever the `scheme` property advertised verbatim.
    pub scheme: String,
}

impl ResolvedTarget {
    /// The request URL of this target: `{scheme}://{host}:{port}{path}`.
    pub open spec fn spec_url(self) -> Seq<char> {
        self.scheme@ + "://"@ + self.host@ + ":"@ + dec_rep(self.port as nat) + self.path@
    }

    /// Render the request URL of this target.
    pub fn url(&self) -> (u: String)
        ensures
            u@ == self.spec_url(),
    {
        let mut u = self.scheme.clone();
        u.append("://");
        u.append(self.host.as_str());
        u.append(":");
        let port = u16_to_dec(self.port);
        u.append(port.as_str());
        u.append(self.path.as_str());
        proof {
            assert(u@ =~= self.spec_url());
        }
        u
    }
}

/// Derive the transport scheme of one announcement: the `scheme` property
/// verbatim when advertised, else the legacy `tls` fallback, else `http`.
pub fn resolve_scheme(announcement: &Announcement) -> (s: String)
    ensures
        s@ == scheme_of(announcement.prop("scheme"@), announcement.prop("tls"@)),
{
    match crate::props::lookup_value(&announcement.properties, "scheme") {
        Some(s) => s,
        None => match crate::props::lookup_value(&announcement.properties, "tls") {
            Some(t) => {
                let one: String = "1".to_owned();
                if t == one {
                    "https".to_owned()
                } else {
                    "http".to_owned()
                }
            },
            None => "http".to_owned(),
        },
    }
}

/// Derive the fetch target of one announcement.
///
/// Fails with [`Error::NoAddress`] exactly when the announcement's address
/// list is empty; otherwise the target is the first address, the advertised
/// port, the path of the `td` property (default when absent) and the scheme
/// of the `scheme`/`tls` fallback chain.
pub fn resolve(announcement: &Announcement) -> (r: Result<ResolvedTarget, Error>)
    ensures
        r is Err <==> announcement.addresses@.len() == 0,
        r is Err ==> r == Err::<ResolvedTarget, Error>(Error::NoAddress),
        r is Ok ==> {
            let t = r.unwrap();
            &&& t.host@ == announcement.addresses@[0]@
            &&& t.port == announcement.port
            &&& t.path@ == path_of(announcement.prop("td"@))
            &&& t.scheme@ == scheme_of(
                announcement.prop("scheme"@),
                announcement.prop("tls"@),
            )
        },
{
    if announcement.addresses.len() == 0 {
        return Err(Error::NoAddress);
    }
    let host = announcement.addresses[0].clone();
    let path = match crate::props::lookup_value(&announcement.properties, "td") {
        Some(p) => p,
        None => "/.well-known/wot".to_owned(),
    };
    let scheme = resolve_scheme(announcement);
    Ok(ResolvedTarget { host, port: announcement.port, path, scheme })
}

/// The advertised `scheme` property takes precedence over the legacy `tls`
/// property: whenever `scheme` is present it is used verbatim, whatever
/// `tls` says.
pub proof fn lemma_scheme_precedence(s: Seq<char>, tls: Option<Seq<char>>)
    ensures
        scheme_of(Some(s), tls) == s,
{
}

/// The legacy fallback: without a `scheme` property, `tls` equal to `1`
/// resolves to `https`, while any other `tls` value, or an absent `tls`,
/// resolves to `http`.
pub proof fn lemma_tls_fallback(tls: Option<Seq<char>>)
    ensures
        scheme_of(None, tls) == (match tls {
            Some(t) => if t == "1"@ {
                "https"@
            } else {
                "http"@
            },
            None => "http"@,
        }),
{
}

/// An announcement that does not advertise `td` is fetched from the
/// well-known default path.
pub proof fn lemma_default_path(a: Announcement)
    requires
        lookup(kv_view(a.properties@), "td"@) is None,
    ensures
        path_of(a.prop("td"@)) == "/.well-known/wot"@,
{
}

} // verus!
