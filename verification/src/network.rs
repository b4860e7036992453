//! Which address to show browsers when the server listens on every address:
//! the addresses of the machine's interfaces that are up and not loopback.

use vstd::prelude::*;

verus! {

/// An IP address.
#[derive(Debug, Clone, Copy, PartialEq, Eq, Structural)]
pub enum IpAddress {
    V4(u8, u8, u8, u8),
    V6(u16, u16, u16, u16, u16, u16, u16, u16),
}

/// A network interface and the addresses assigned to it.
pub struct NetInterface {
    pub is_up: bool,
    pub is_loopback: bool,
    pub ips: Vec<IpAddress>,
}

pub open spec fn is_v4(a: IpAddress) -> bool {
    a is V4
}

/// The unspecified address of its family (`0.0.0.0` or `::`).
pub open spec fn spec_unspecified(a: IpAddress) -> bool {
    match a {
        IpAddress::V4(a, b, c, d) => a == 0 && b == 0 && c == 0 && d == 0,
        IpAddress::V6(a, b, c, d, e, f, g, h) => a == 0 && b == 0 && c == 0 && d == 0 && e == 0
            && f == 0 && g == 0 && h == 0,
    }
}

/// Whether the address is the unspecified address of its family.
pub fn is_unspecified(a: IpAddress) -> (r: bool)
    ensures
        r == spec_unspecified(a),
{
    match a {
        IpAddress::V4(a, b, c, d) => a == 0 && b == 0 && c == 0 && d == 0,
        IpAddress::V6(a, b, c, d, e, f, g, h) => a == 0 && b == 0 && c == 0 && d == 0 && e == 0
            && f == 0 && g == 0 && h == 0,
    }
}

/// The addresses of the family `v4` among the first `k` addresses of an
/// interface, in order.
pub open spec fn family_ips(ips: Seq<IpAddress>, v4: bool, k: int) -> Seq<IpAddress>
    decreases k,
{
    if k <= 0 {
        Seq::empty()
    } else if is_v4(ips[k - 1]) == v4 {
        family_ips(ips, v4, k - 1).push(ips[k - 1])
    } else {
        family_ips(ips, v4, k - 1)
    }
}

/// The candidate addresses of the first `n` interfaces: those of the family
/// `v4` on interfaces that are up and not loopback, interface by interface.
pub open spec fn candidates(ifaces: Seq<NetInterface>, v4: bool, n: int) -> Seq<IpAddress>
    decreases n,
{
    if n <= 0 {
        Seq::empty()
    } else if ifaces[n - 1].is_up && !ifaces[n - 1].is_loopback {
        candidates(ifaces, v4, n - 1) + family_ips(
            ifaces[n - 1].ips@,
            v4,
            ifaces[n - 1].ips@.len() as int,
        )
    } else {
        candidates(ifaces, v4, n - 1)
    }
}

proof fn lemma_family_ips(ips: Seq<IpAddress>, v4: bool, k: int)
    requires
        0 <= k <= ips.len(),
    ensures
        forall|i: int| 0 <= i < family_ips(ips, v4, k).len() ==> is_v4(#[trigger] family_ips(ips, v4, k)[i]) == v4,
    decreases k,
{
    if k > 0 {
        lemma_family_ips(ips, v4, k - 1);
        let prev = family_ips(ips, v4, k - 1);
        if is_v4(ips[k - 1]) == v4 {
            assert forall|i: int| 0 <= i < prev.push(ips[k - 1]).len() implies is_v4(
                #[trigger] prev.push(ips[k - 1])[i],
            ) == v4 by {
                if i < prev.len() {
                    assert(prev.push(ips[k - 1])[i] == prev[i]);
                }
            }
        }
    }
}

/// Every candidate address is of the family the server is bound to.
pub proof fn candidates_share_the_family(ifaces: Seq<NetInterface>, v4: bool, n: int)
    requires
        0 <= n <= ifaces.len(),
    ensures
        forall|i: int|
            0 <= i < candidates(ifaces, v4, n).len() ==> is_v4(#[trigger] candidates(ifaces, v4, n)[i]) == v4,
    decreases n,
{
    if n > 0 {
        candidates_share_the_family(ifaces, v4, n - 1);
        let prev = candidates(ifaces, v4, n - 1);
        if ifaces[n - 1].is_up && !ifaces[n - 1].is_loopback {
            let f = family_ips(ifaces[n - 1].ips@, v4, ifaces[n - 1].ips@.len() as int);
            lemma_family_ips(ifaces[n - 1].ips@, v4, ifaces[n - 1].ips@.len() as int);
            assert forall|i: int| 0 <= i < (prev + f).len() implies is_v4(#[trigger] (prev + f)[i]) == v4 by {
                if i < prev.len() {
                    assert((prev + f)[i] == prev[i]);
                } else {
                    assert((prev + f)[i] == f[i - prev.len()]);
                }
            }
        }
    }
}

/// The addresses browsers may reach a server bound to an address of family
/// `v4` at: every address of that family on an interface that is up and not
/// a loopback interface.
pub fn candidate_ips(bind_is_v4: bool, ifaces: &Vec<NetInterface>) -> (r: Vec<IpAddress>)
    ensures
        r@ == candidates(ifaces@, bind_is_v4, ifaces@.len() as int),
{
    let mut out: Vec<IpAddress> = Vec::new();
    let mut i: usize = 0;
    while i < ifaces.len()
        invariant
            i <= ifaces@.len(),
            out@ == candidates(ifaces@, bind_is_v4, i as int),
        decreases ifaces@.len() - i,
    {
        let iface = &ifaces[i];
        if iface.is_up && !iface.is_loopback {
            let ghost before = out@;
            let mut k: usize = 0;
            while k < iface.ips.len()
                invariant
                    k <= iface.ips@.len(),
                    out@ == before + family_ips(iface.ips@, bind_is_v4, k as int),
                decreases iface.ips@.len() - k,
            {
                let ip = iface.ips[k];
                let ip_v4 = match ip {
                    IpAddress::V4(..) => true,
                    IpAddress::V6(..) => false,
                };
                if ip_v4 == bind_is_v4 {
                    out.push(ip);
                }
                k = k + 1;
                assert(out@ =~= before + family_ips(iface.ips@, bind_is_v4, k as int));
            }
        }
        i = i + 1;
    }
    out
}

/// The address to show: the bound address itself unless it is unspecified;
/// then the first candidate address, or the unspecified address when there
/// is none. The second value lists the other candidates.
pub fn shown_address(bind: IpAddress, ifaces: &Vec<NetInterface>) -> (r: (IpAddress, Vec<IpAddress>))
    ensures
        !spec_unspecified(bind) ==> r.0 == bind && r.1@.len() == 0,
        spec_unspecified(bind) ==> ({
            let c = candidates(ifaces@, is_v4(bind), ifaces@.len() as int);
            &&& r.0 == (if c.len() > 0 {
                c[0]
            } else {
                bind
            })
            &&& r.1@ == (if c.len() > 1 {
                c.drop_first()
            } else {
                Seq::empty()
            })
        }),
{
    if !is_unspecified(bind) {
        return (bind, Vec::new());
    }
    let v4 = match bind {
        IpAddress::V4(..) => true,
        IpAddress::V6(..) => false,
    };
    let ips = candidate_ips(v4, ifaces);
    if ips.len() == 0 {
        return (bind, Vec::new());
    }
    let mut others: Vec<IpAddress> = Vec::new();
    let mut k: usize = 1;
    while k < ips.len()
        invariant
            1 <= k <= ips@.len(),
            others@ == ips@.subrange(1, k as int),
        decreases ips@.len() - k,
    {
        others.push(ips[k]);
        k = k + 1;
        assert(others@ =~= ips@.subrange(1, k as int));
    }
    assert(ips@.len() > 1 ==> ips@.subrange(1, ips@.len() as int) =~= ips@.drop_first());
    assert(ips@.len() <= 1 ==> others@ =~= Seq::<IpAddress>::empty());
    (ips[0], others)
}

} // verus!
