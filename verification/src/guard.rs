//! The host whitelist gate that runs before any network fetch.
use vstd::prelude::*;

use crate::error::Error;

verus! {

/// The host component of a URL string: `None` when the string does not parse
/// as an absolute URL, `Some` of the host otherwise (the empty string when
/// the URL has no host). Parsing is a pure function of the characters alone.
pub uninterp spec fn parsed_host(url: Seq<char>) -> Option<Seq<char>>;

/// Relies on `url::Url::parse` and `url::Url::host_str`: parsing depends on
/// the input string alone; `host_str` returns the host component, absent for
/// URLs that cannot have one.
#[verifier::external_body]
fn parse_host(url: &str) -> (r: Option<String>)
    ensures
        match r {
            Some(h) => parsed_host(url@) == Some(h@),
            None => parsed_host(url@) is None,
        },
{
    match url::Url::parse(url) {
        Ok(u) => Some(u.host_str().unwrap_or("").to_string()),
        Err(_) => None,
    }
}

/// Whether `host` is a member of the whitelist, by exact, case-sensitive
/// string equality.
pub open spec fn in_whitelist(host: Seq<char>, whitelist: Seq<String>) -> bool {
    exists|i: int| 0 <= i < whitelist.len() && whitelist[i]@ == host
}

/// Whether a request for `url` passes the whitelist gate: the URL parses and
/// its host (the empty string when absent) is on the list. An unparsable URL
/// fails closed.
pub open spec fn host_allowed(url: Seq<char>, whitelist: Seq<String>) -> bool {
    match parsed_host(url) {
        Some(h) => in_whitelist(h, whitelist),
        None => false,
    }
}

/// The whitelist gate. Returns `Ok(())` exactly when the URL parses and its
/// host is on the whitelist; every failure — absent host included — is
/// reported as `HostNotAllowed`, never as a distinct parse error.
pub fn allowed_host(url: &str, whitelist: &Vec<String>) -> (r: Result<(), Error>)
    ensures
        r is Ok <==> host_allowed(url@, whitelist@),
        r is Err ==> r == Err::<(), Error>(Error::HostNotAllowed),
{
    let parsed = parse_host(url);
    match parsed {
        None => Err(Error::HostNotAllowed),
        Some(host) => {
            let mut i: usize = 0;
            while i < whitelist.len()
                invariant
                    0 <= i <= whitelist.len(),
                    parsed_host(url@) == Some(host@),
                    forall|j: int| 0 <= j < i ==> whitelist[j]@ != host@,
                decreases whitelist.len() - i,
            {
                if whitelist[i].eq(&host) {
                    return Ok(());
                }
                i = i + 1;
            }
            Err(Error::HostNotAllowed)
        },
    }
}

} // verus!
