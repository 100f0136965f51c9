//! Network access fingerprint used to detect network changes between daemon polls.
use crate::error::RustyJackError;
use crate::text::{lines, lines_of, owned, split_once, split_once_str, str_eq, trim, trim_str};
use vstd::prelude::*;

verus! {

/// Default route interface, gateway and interface address.
#[derive(Debug, Clone, PartialEq, Eq)]
pub struct NetworkAccessSnapshot {
    pub interface: String,
    pub gateway: Option<String>,
    pub ip_address: Option<String>,
}

pub open spec fn opt_view(o: Option<String>) -> Option<Seq<char>> {
    match o {
        Some(s) => Some(s@),
        None => None,
    }
}

impl NetworkAccessSnapshot {
    /// Two snapshots describe the same network access.
    pub open spec fn same_as(&self, other: &NetworkAccessSnapshot) -> bool {
        self.interface@ == other.interface@ && opt_view(self.gateway) == opt_view(other.gateway)
            && opt_view(self.ip_address) == opt_view(other.ip_address)
    }

    pub fn equals(&self, other: &NetworkAccessSnapshot) -> (r: bool)
        ensures
            r == self.same_as(other),
    {
        str_eq(self.interface.as_str(), other.interface.as_str()) && opt_eq(
            &self.gateway,
            &other.gateway,
        ) && opt_eq(&self.ip_address, &other.ip_address)
    }

    pub fn duplicate(&self) -> (r: NetworkAccessSnapshot)
        ensures
            r == *self,
    {
        NetworkAccessSnapshot {
            interface: self.interface.clone(),
            gateway: crate::output_device::clone_opt_string(&self.gateway),
            ip_address: crate::output_device::clone_opt_string(&self.ip_address),
        }
    }
}

fn opt_eq(a: &Option<String>, b: &Option<String>) -> (r: bool)
    ensures
        r == (opt_view(*a) == opt_view(*b)),
{
    match (a, b) {
        (Some(x), Some(y)) => str_eq(x.as_str(), y.as_str()),
        (None, None) => true,
        _ => false,
    }
}

/// The value of `key` on one `route get` output line, when that line holds it.
pub open spec fn route_line_value(line: Seq<char>, key: Seq<char>) -> Option<Seq<char>> {
    match split_once(line, ":"@) {
        Some((candidate, value)) => if trim(candidate) == key && trim(value).len() > 0 {
            Some(trim(value))
        } else {
            None
        },
        None => None,
    }
}

/// The first line of `ls` that holds a non-empty value for `key`.
pub open spec fn route_value_in(ls: Seq<Seq<char>>, key: Seq<char>) -> Option<Seq<char>>
    decreases ls.len(),
{
    if ls.len() == 0 {
        None
    } else {
        match route_line_value(ls[0], key) {
            Some(v) => Some(v),
            None => route_value_in(ls.drop_first(), key),
        }
    }
}

/// Read `key: value` from `route -n get default` output.
pub fn parse_route_value(output: &str, key: &str) -> (r: Option<String>)
    ensures
        opt_view(r) == route_value_in(lines(output@), key@),
{
    let ls = lines_of(output);
    let ghost views = ls@.map_values(|x: &str| x@);
    let mut i: usize = 0;
    assert(views.skip(0) =~= views);
    while i < ls.len()
        invariant
            views == ls@.map_values(|x: &str| x@),
            views == lines(output@),
            i <= ls@.len(),
            route_value_in(views, key@) == route_value_in(views.skip(i as int), key@),
        decreases ls@.len() - i,
    {
        let line = ls[i];
        proof {
            assert(views.skip(i as int)[0] == line@);
            assert(views.skip(i as int).drop_first() =~= views.skip(i + 1));
        }
        if let Some((candidate, value)) = split_once_str(line, ":") {
            let c = trim_str(candidate);
            let v = trim_str(value);
            if str_eq(c, key) && v.unicode_len() > 0 {
                return Some(owned(v));
            }
        }
        i = i + 1;
    }
    proof {
        assert(views.skip(i as int) =~= Seq::<Seq<char>>::empty());
    }
    None
}

/// The Mac is ready for LAN wake traffic when the network probe found a default
/// route whose interface has an address (a failed probe counts as not ready).
pub fn lan_connectivity_ready(snapshot: &Result<Option<NetworkAccessSnapshot>, RustyJackError>) -> (r:
    bool)
    ensures
        r == (snapshot matches Ok(Some(s)) && s.ip_address is Some && s.ip_address.unwrap()@.len()
            > 0),
{
    match snapshot {
        Ok(Some(s)) => match &s.ip_address {
            Some(ip) => ip.unicode_len() > 0,
            None => false,
        },
        _ => false,
    }
}

/// Whether wake traffic should be attempted for `host`: never for a missing or blank
/// host or while the LAN is not ready (`lan_ready`); otherwise what the platform's
/// reachability check `host_is_reachable` reports for the trimmed host.
pub fn host_ready_for_scalar_webapi_wake<L, H>(host: Option<&str>, lan_ready: L, host_is_reachable: H) -> (r:
    Result<bool, RustyJackError>) where
    L: FnOnce() -> bool,
    H: FnOnce(&str) -> Result<bool, RustyJackError>,

    requires
        call_requires(lan_ready, ()),
        forall|h: &str| call_requires(host_is_reachable, (h,)),
    ensures
        (host is None || trim(host.unwrap()@).len() == 0) ==> r == Ok::<bool, RustyJackError>(
            false,
        ),
        (host is Some && trim(host.unwrap()@).len() > 0) ==> exists|ready: bool|
            #![trigger call_ensures(lan_ready, (), ready)]
            call_ensures(lan_ready, (), ready) && if ready {
                exists|h: &str|
                    #![trigger call_ensures(host_is_reachable, (h,), r)]
                    h@ == trim(host.unwrap()@) && call_ensures(host_is_reachable, (h,), r)
            } else {
                r == Ok::<bool, RustyJackError>(false)
            },
{
    let h = match host {
        Some(h) => trim_str(h),
        None => {
            return Ok(false);
        },
    };
    if h.unicode_len() == 0 {
        return Ok(false);
    }
    if !lan_ready() {
        return Ok(false);
    }
    host_is_reachable(h)
}

} // verus!
