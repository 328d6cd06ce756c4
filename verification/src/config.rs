//! The client's settings, and the choice of a server among them.

use vstd::prelude::*;
use rand::seq::SliceRandom;

verus! {

/// Settings of the client: where the trusted certificate lies, and the base
/// addresses of the servers that take jobs.
#[derive(Debug, Clone)]
pub struct WebApiConfig {
    pub trust_cert: String,
    pub servers: Vec<String>,
}

/// Calls `SliceRandom::choose` of `rand` on the items, with the thread's
/// generator. Believed: nothing comes back from an empty list, and from any
/// other list one of its items; which one is left open.
#[verifier::external_body]
fn random_item(items: &Vec<String>) -> (r: Option<&String>)
    ensures
        items@.len() == 0 ==> r is None,
        items@.len() > 0 ==> r is Some,
        r matches Some(s) ==> exists|i: int| 0 <= i < items@.len() && items@[i] == *s,
{
    items.choose(&mut rand::thread_rng())
}

impl WebApiConfig {
    /// Settings are usable when at least one server is named.
    pub open spec fn wf(&self) -> bool {
        self.servers@.len() > 0
    }

    /// Whether an address is one of the configured servers.
    pub open spec fn has_server(&self, address: Seq<char>) -> bool {
        exists|i: int| 0 <= i < self.servers@.len() && #[trigger] self.servers@[i]@ == address
    }

    /// Builds the settings, or nothing where no server is named.
    pub fn new(trust_cert: String, servers: Vec<String>) -> (r: Option<WebApiConfig>)
        ensures
            r is Some <==> servers@.len() > 0,
            r matches Some(c) ==> c.wf() && c.trust_cert == trust_cert && c.servers == servers,
    {
        if servers.len() == 0 {
            None
        } else {
            Some(WebApiConfig { trust_cert, servers })
        }
    }

    /// Picks one of the configured servers at random. Every call is on its
    /// own: nothing is remembered of earlier picks.
    pub fn pick_server(&self) -> (r: &String)
        requires
            self.wf(),
        ensures
            self.has_server(r@),
            exists|i: int| 0 <= i < self.servers@.len() && self.servers@[i] == *r,
    {
        match random_item(&self.servers) {
            Some(s) => s,
            None => {
                // Unreachable: the list is not empty.
                &self.servers[0]
            },
        }
    }
}

} // verus!
