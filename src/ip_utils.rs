//! Choice of the advertised local ip among the machine's interfaces, and
//! the scan for a free listen port.
use vstd::prelude::*;

verus! {

/// Ip used when no interface qualifies.
pub const FALLBACK_IP: &'static str = "127.0.0.1";

/// One address of a network interface, as plain values.
#[derive(Debug)]
pub struct InterfaceAddr {
    pub ip: String,
    pub is_loopback: bool,
    pub is_link_local: bool,
    pub is_ipv4: bool,
}

/// The ip chosen from `s` when `current` is the choice so far: loopback
/// and link-local addresses are skipped, the first remaining ipv4 address
/// wins, and otherwise the last remaining address does.
pub open spec fn local_ip_from(s: Seq<InterfaceAddr>, current: Seq<char>) -> Seq<char>
    decreases s.len(),
{
    if s.len() == 0 {
        current
    } else if s[0].is_loopback || s[0].is_link_local {
        local_ip_from(s.drop_first(), current)
    } else if s[0].is_ipv4 {
        s[0].ip@
    } else {
        local_ip_from(s.drop_first(), s[0].ip@)
    }
}

/// The advertised ip chosen among `interfaces`, `127.0.0.1` when none
/// qualifies.
pub fn select_local_ip(interfaces: &Vec<InterfaceAddr>) -> (r: String)
    ensures
        r@ == local_ip_from(interfaces@, FALLBACK_IP@),
{
    let mut ip_str = String::from_str(FALLBACK_IP);
    let mut i: usize = 0;
    proof {
        assert(interfaces@.skip(0) =~= interfaces@);
    }
    while i < interfaces.len()
        invariant
            i <= interfaces@.len(),
            local_ip_from(interfaces@, FALLBACK_IP@) == local_ip_from(interfaces@.skip(i as int), ip_str@),
        decreases interfaces@.len() - i,
    {
        let ghost rest = interfaces@.skip(i as int);
        proof {
            assert(rest.drop_first() =~= interfaces@.skip(i + 1));
        }
        let it = &interfaces[i];
        if it.is_loopback || it.is_link_local {
            i = i + 1;
            continue;
        }
        ip_str = it.ip.clone();
        if it.is_ipv4 {
            return ip_str;
        }
        i = i + 1;
    }
    proof {
        assert(interfaces@.skip(i as int).len() == 0);
    }
    ip_str
}

/// One step of the scan for a free port over `start..65535`.
#[derive(Clone, Copy, Debug, PartialEq, Eq, Structural)]
pub enum PortProbe {
    /// Try to bind this port next.
    Probe(u16),
    /// This port is free.
    Found(u16),
    /// No port in the range is free.
    Exhausted,
}

/// The first step of a scan from `start`.
pub fn port_scan_first(start: u16) -> (r: PortProbe)
    ensures
        start < 65535 ==> r == PortProbe::Probe(start),
        start >= 65535 ==> r == PortProbe::Exhausted,
{
    if start < 65535 {
        PortProbe::Probe(start)
    } else {
        PortProbe::Exhausted
    }
}

/// The step after probing `port`: stop at the first free port, else try
/// the next one below 65535.
pub fn port_scan_next(port: u16, available: bool) -> (r: PortProbe)
    ensures
        available ==> r == PortProbe::Found(port),
        !available && port + 1 < 65535 ==> r == PortProbe::Probe((port + 1) as u16),
        !available && port + 1 >= 65535 ==> r == PortProbe::Exhausted,
{
    if available {
        PortProbe::Found(port)
    } else if port < 65534 {
        PortProbe::Probe(port + 1)
    } else {
        PortProbe::Exhausted
    }
}

/// The port a finished scan yields: the free port, or zero.
pub fn port_scan_result(p: PortProbe) -> (r: u16)
    ensures
        p matches PortProbe::Found(q) ==> r == q,
        !(p is Found) ==> r == 0,
{
    match p {
        PortProbe::Found(q) => q,
        _ => 0,
    }
}

} // verus!
