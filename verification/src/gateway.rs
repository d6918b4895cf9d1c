//! The host-routing gateway table.
//!
//! A single HTTP front door routes every request by its `Host` header
//! (port suffix stripped): a static route serves files from a mapped
//! document root, a proxy route is a registered-but-unimplemented stub,
//! and an unknown host is not configured.  The table is shared between the
//! gateway and the deploy sessions that register web applications; a
//! registration for an existing hostname simply wins over the earlier one.
//! The unverified shell owns the lock around the table and the file
//! serving; everything it decides by, it decides through `lookup`.

use crate::strutil::{host_without_port, spec_dec_digits, spec_host_without_port, str_eq, u64_to_string};
use vstd::prelude::*;
use vstd::string::StringExecFns;

verus! {

broadcast use vstd::string::group_string_axioms;

/// The mapping that a sequence of registrations denotes: later entries win.
pub open spec fn spec_route_map<V>(v: Seq<(String, V)>) -> Map<Seq<char>, V>
    decreases v.len(),
{
    if v.len() == 0 {
        Map::empty()
    } else {
        spec_route_map(v.drop_last()).insert(v.last().0@, v.last().1)
    }
}

/// The routing table: hostname to document root (static sites) and
/// hostname to local port (proxy stubs).  Keys are bare hostnames; the
/// port suffix of a request's `Host` header is stripped before lookup.
pub struct GatewayRoutes {
    static_routes: Vec<(String, String)>,
    proxy_routes: Vec<(String, u16)>,
}

/// What the gateway does with a request, decided by its `Host` header.
pub enum RouteDecision {
    /// Serve files from this document root.
    StaticDir(String),
    /// A proxy route is registered for this port; proxying is a stub.
    ProxyStub(u16),
    /// No route is registered for the hostname.
    NotFound,
}

/// Scanning a registration list from the back yields exactly the denoted
/// mapping: the key is present iff some entry carries it, and the value is
/// the last one registered.
proof fn lemma_route_map_prefix<V>(v: Seq<(String, V)>, i: int, k: Seq<char>)
    requires
        0 <= i < v.len(),
    ensures
        v[i].0@ == k ==> spec_route_map(v.subrange(0, i + 1)).contains_key(k)
            && spec_route_map(v.subrange(0, i + 1))[k] == v[i].1,
        v[i].0@ != k ==> (spec_route_map(v.subrange(0, i + 1)).contains_key(k)
            == spec_route_map(v.subrange(0, i)).contains_key(k)),
        v[i].0@ != k && spec_route_map(v.subrange(0, i)).contains_key(k) ==> spec_route_map(
            v.subrange(0, i + 1),
        )[k] == spec_route_map(v.subrange(0, i))[k],
{
    let w = v.subrange(0, i + 1);
    assert(w.drop_last() =~= v.subrange(0, i));
    assert(w.last() == v[i]);
}

impl GatewayRoutes {
    /// The static routes as a map from hostname to document root.
    pub closed spec fn static_map(self) -> Map<Seq<char>, String> {
        spec_route_map(self.static_routes@)
    }

    /// The proxy routes as a map from hostname to port.
    pub closed spec fn proxy_map(self) -> Map<Seq<char>, u16> {
        spec_route_map(self.proxy_routes@)
    }

    /// An empty table: no host is configured.
    pub fn new() -> (r: GatewayRoutes)
        ensures
            r.static_map() == Map::<Seq<char>, String>::empty(),
            r.proxy_map() == Map::<Seq<char>, u16>::empty(),
    {
        GatewayRoutes { static_routes: Vec::new(), proxy_routes: Vec::new() }
    }

    /// Registers a static site: `domain` is served from `root_path` from
    /// now on, winning over any earlier registration of the same domain.
    pub fn register_static(&mut self, domain: String, root_path: String)
        ensures
            final(self).static_map() == old(self).static_map().insert(domain@, root_path),
            final(self).proxy_map() == old(self).proxy_map(),
    {
        let ghost before = self.static_routes@;
        self.static_routes.push((domain, root_path));
        proof {
            assert(self.static_routes@.drop_last() =~= before);
        }
    }

    /// Registers a proxy route: requests for `domain` name this local port,
    /// winning over any earlier registration of the same domain.
    pub fn register_proxy(&mut self, domain: String, port: u16)
        ensures
            final(self).proxy_map() == old(self).proxy_map().insert(domain@, port),
            final(self).static_map() == old(self).static_map(),
    {
        let ghost before = self.proxy_routes@;
        self.proxy_routes.push((domain, port));
        proof {
            assert(self.proxy_routes@.drop_last() =~= before);
        }
    }

    /// Finds the last value registered for hostname `h`, scanning from the
    /// most recent entry back.
    fn find_last<'a, V>(entries: &'a Vec<(String, V)>, h: &str) -> (r: Option<&'a V>)
        ensures
            match r {
                Some(value) => spec_route_map(entries@).contains_key(h@) && *value
                    == spec_route_map(entries@)[h@],
                None => !spec_route_map(entries@).contains_key(h@),
            },
    {
        let mut i: usize = entries.len();
        proof {
            assert(entries@.subrange(0, entries@.len() as int) =~= entries@);
        }
        while i > 0
            invariant
                i <= entries@.len(),
                spec_route_map(entries@).contains_key(h@) == spec_route_map(
                    entries@.subrange(0, i as int),
                ).contains_key(h@),
                spec_route_map(entries@).contains_key(h@) ==> spec_route_map(
                    entries@.subrange(0, i as int),
                )[h@] == spec_route_map(entries@)[h@],
            decreases i,
        {
            proof {
                lemma_route_map_prefix(entries@, i - 1, h@);
            }
            i = i - 1;
            if str_eq(entries[i].0.as_str(), h) {
                return Some(&entries[i].1);
            }
        }
        proof {
            assert(entries@.subrange(0, 0) =~= Seq::<(String, V)>::empty());
        }
        None
    }

    /// Routes one request by its `Host` header value.  The port suffix is
    /// ignored; a static route wins over a proxy route; an unregistered
    /// hostname is not configured.
    pub fn lookup(&self, host_header: &str) -> (r: RouteDecision)
        ensures
            ({
                let h = spec_host_without_port(host_header@);
                match r {
                    RouteDecision::StaticDir(root) => self.static_map().contains_key(h) && root
                        == self.static_map()[h],
                    RouteDecision::ProxyStub(port) => !self.static_map().contains_key(h)
                        && self.proxy_map().contains_key(h) && port == self.proxy_map()[h],
                    RouteDecision::NotFound => !self.static_map().contains_key(h)
                        && !self.proxy_map().contains_key(h),
                }
            }),
    {
        let h = host_without_port(host_header);
        if let Some(root) = Self::find_last(&self.static_routes, h) {
            return RouteDecision::StaticDir(root.clone());
        }
        if let Some(port) = Self::find_last(&self.proxy_routes, h) {
            return RouteDecision::ProxyStub(*port);
        }
        RouteDecision::NotFound
    }
}

/// A web deploy of a fresh domain gains the gateway exactly one entry:
/// registering a domain not yet in the table grows it by one and maps the
/// domain to the registered document root, and registering an existing
/// domain only replaces its root.
pub proof fn lemma_register_static_growth(
    before: GatewayRoutes,
    after: GatewayRoutes,
    domain: Seq<char>,
    root: String,
)
    requires
        before.static_map().dom().finite(),
        after.static_map() == before.static_map().insert(domain, root),
    ensures
        after.static_map()[domain] == root,
        !before.static_map().contains_key(domain) ==> after.static_map().len()
            == before.static_map().len() + 1,
        before.static_map().contains_key(domain) ==> after.static_map().len()
            == before.static_map().len(),
        forall|d: Seq<char>|
            d != domain ==> (after.static_map().contains_key(d)
                == before.static_map().contains_key(d)) && (before.static_map().contains_key(d)
                ==> after.static_map()[d] == before.static_map()[d]),
{
    if !before.static_map().contains_key(domain) {
        assert(after.static_map().dom() =~= before.static_map().dom().insert(domain));
    } else {
        assert(after.static_map().dom() =~= before.static_map().dom());
    }
}

/// The body of the stub response for a proxy route:
/// `Proxying to localhost:{port} (not implemented yet)`.
pub fn proxy_stub_body(port: u16) -> (r: String)
    ensures
        r@ == "Proxying to localhost:"@ + spec_dec_digits(port as nat)
            + " (not implemented yet)"@,
{
    let mut out = String::from_str("Proxying to localhost:");
    let digits = u64_to_string(port as u64);
    out.append(digits.as_str());
    out.append(" (not implemented yet)");
    out
}

/// The body of the response for an unconfigured hostname.
pub fn not_found_body() -> (r: String)
    ensures
        r@ == "Domain not configured in Spark"@,
{
    String::from_str("Domain not configured in Spark")
}

} // verus!
