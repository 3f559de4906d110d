//! Resolution of a logical region selector to a concrete relay endpoint.
//! The mapping is an explicit table; a selector without an entry falls back
//! to the designated default endpoint rather than failing.

use vstd::prelude::*;

verus! {

use vstd::string::StringExecFns;
use crate::digits::dec_digits;
use crate::digits::u64_to_dec_string;

/// A logical region selector for the relay service.
#[derive(Clone, Copy, PartialEq, Eq, Structural, Debug)]
pub enum Region {
    NewYork,
    Frankfurt,
    Amsterdam,
    London,
    /// Any selector the table has no entry for.
    Unmapped,
}

/// A concrete network address of the relay service.
pub struct Endpoint {
    pub host: String,
    pub port: u16,
}

/// The port every relay endpoint listens on.
pub open spec fn relay_port() -> u16 {
    50051
}

/// The host of the default endpoint, used for selectors without an entry.
pub open spec fn default_host() -> Seq<char> {
    "fra1.beta.tempo.temporal.xyz"@
}

/// Whether the table has an explicit entry for the selector.
pub open spec fn has_mapping(r: Region) -> bool {
    match r {
        Region::NewYork => true,
        Region::Frankfurt => true,
        Region::Amsterdam => true,
        Region::London => true,
        Region::Unmapped => false,
    }
}

/// The host each selector resolves to.
pub open spec fn host_of(r: Region) -> Seq<char> {
    match r {
        Region::NewYork => "ewr1.beta.tempo.temporal.xyz"@,
        Region::Frankfurt => "fra1.beta.tempo.temporal.xyz"@,
        Region::Amsterdam => "ams1.beta.tempo.temporal.xyz"@,
        Region::London => "lon1.beta.tempo.temporal.xyz"@,
        Region::Unmapped => default_host(),
    }
}

/// Every selector resolves to a non-empty host, and one without an explicit
/// entry resolves to the default host.
pub proof fn lemma_resolve_total_and_default(r: Region)
    ensures
        host_of(r).len() > 0,
        !has_mapping(r) ==> host_of(r) == default_host(),
{
    reveal_strlit("ewr1.beta.tempo.temporal.xyz");
    reveal_strlit("fra1.beta.tempo.temporal.xyz");
    reveal_strlit("ams1.beta.tempo.temporal.xyz");
    reveal_strlit("lon1.beta.tempo.temporal.xyz");
}

/// Resolve a region selector to its endpoint, falling back to the default
/// endpoint for a selector without an entry.
pub fn resolve(region: Region) -> (e: Endpoint)
    ensures
        e.host@ == host_of(region),
        e.port == relay_port(),
        e.host@.len() > 0,
{
    proof {
        lemma_resolve_total_and_default(region);
    }
    let host = match region {
        Region::NewYork => String::from_str("ewr1.beta.tempo.temporal.xyz"),
        Region::Frankfurt => String::from_str("fra1.beta.tempo.temporal.xyz"),
        Region::Amsterdam => String::from_str("ams1.beta.tempo.temporal.xyz"),
        Region::London => String::from_str("lon1.beta.tempo.temporal.xyz"),
        Region::Unmapped => String::from_str("fra1.beta.tempo.temporal.xyz"),
    };
    Endpoint { host, port: 50051 }
}

/// The address string of an endpoint: scheme, host and port.
pub open spec fn url_of(host: Seq<char>, port: u16, secure: bool) -> Seq<char> {
    (if secure {
        "https://"@
    } else {
        "http://"@
    }) + host + ":"@ + dec_digits(port as nat)
}

impl Endpoint {
    /// The address string used to open a channel to this endpoint.
    pub fn url(&self, secure: bool) -> (s: String)
        ensures
            s@ == url_of(self.host@, self.port, secure),
    {
        let mut s = if secure {
            String::from_str("https://")
        } else {
            String::from_str("http://")
        };
        s.append(self.host.as_str());
        s.append(":");
        proof {
            reveal_strlit(":");
        }
        let port_str = u64_to_dec_string(self.port as u64);
        s.append(port_str.as_str());
        proof {
            assert(s@ =~= url_of(self.host@, self.port, secure));
        }
        s
    }
}

} // verus!
