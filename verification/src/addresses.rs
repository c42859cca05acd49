//! The local IPv4 addresses a login is attempted for, modelled as
//! plain octets: the deployment convention keeps only addresses whose
//! first octet is 10.

use vstd::prelude::*;
use crate::numstr::dec_rep;
use crate::numstr::push_dec;

verus! {

/// An IPv4 address as its four dotted-decimal octets.
#[derive(Clone, Copy, PartialEq, Eq, Structural, Debug)]
pub struct Ipv4Address {
    pub a: u8,
    pub b: u8,
    pub c: u8,
    pub d: u8,
}

/// The deployment's private-subnet convention: first octet 10.
pub open spec fn is_private_net(ip: Ipv4Address) -> bool {
    ip.a == 10
}

/// Dotted-decimal rendering of an address.
pub open spec fn spec_ip_string(ip: Ipv4Address) -> Seq<char> {
    dec_rep(ip.a as int) + seq!['.'] + dec_rep(ip.b as int) + seq!['.'] + dec_rep(ip.c as int)
        + seq!['.'] + dec_rep(ip.d as int)
}

/// Renders an address in dotted-decimal form, as the portal's
/// `uaddress` fields carry it.
pub fn ip_to_string(ip: &Ipv4Address) -> (r: String)
    ensures
        r@ == spec_ip_string(*ip),
{
    let dot = ".";
    proof {
        reveal_strlit(".");
        assert(dot@ =~= seq!['.']);
    }
    let mut s = String::new();
    push_dec(&mut s, ip.a as u64);
    s.append(dot);
    push_dec(&mut s, ip.b as u64);
    s.append(dot);
    push_dec(&mut s, ip.c as u64);
    s.append(dot);
    push_dec(&mut s, ip.d as u64);
    proof {
        assert(s@ =~= spec_ip_string(*ip));
    }
    s
}

/// Keeps, in discovery order, the addresses that match the
/// private-subnet convention.
pub fn filter_private_addresses(addrs: &Vec<Ipv4Address>) -> (r: Vec<Ipv4Address>)
    ensures
        r@ == addrs@.filter(|ip: Ipv4Address| is_private_net(ip)),
{
    let ghost pred = |ip: Ipv4Address| is_private_net(ip);
    let mut out: Vec<Ipv4Address> = Vec::new();
    let mut i: usize = 0;
    proof {
        assert(addrs@.take(0) =~= Seq::empty());
        reveal_with_fuel(Seq::filter, 2);
        assert(out@ =~= addrs@.take(0).filter(pred));
    }
    while i < addrs.len()
        invariant
            0 <= i <= addrs@.len(),
            out@ == addrs@.take(i as int).filter(pred),
            pred == (|ip: Ipv4Address| is_private_net(ip)),
        decreases addrs@.len() - i,
    {
        let ip = addrs[i];
        proof {
            reveal_with_fuel(Seq::filter, 2);
            assert(addrs@.take(i as int + 1).drop_last() =~= addrs@.take(i as int));
            assert(addrs@.take(i as int + 1).last() == addrs@[i as int]);
        }
        if ip.a == 10 {
            out.push(ip);
            proof {
                assert(out@ =~= addrs@.take(i as int + 1).filter(pred));
            }
        } else {
            proof {
                assert(out@ =~= addrs@.take(i as int + 1).filter(pred));
            }
        }
        i = i + 1;
    }
    proof {
        assert(addrs@.take(addrs@.len() as int) =~= addrs@);
    }
    out
}

} // verus!
