//! Plain-value model of interface addresses, and the filter that keeps
//! only the addresses worth publishing.
//!
//! The caller enumerates the interface's addresses however it likes and
//! hands them in as raw bits; the engine never publishes loopback or
//! link-local addresses, and the filter here is what decides that.

use vstd::prelude::*;

verus! {

/// An IPv4 address as its 32 raw bits, first octet highest.
#[derive(Clone, Copy, PartialEq, Eq, Structural, Debug)]
pub struct Ipv4Address {
    pub bits: u32,
}

/// An IPv6 address as its 128 raw bits, first segment highest.
#[derive(Clone, Copy, PartialEq, Eq, Structural, Debug)]
pub struct Ipv6Address {
    pub bits: u128,
}

impl Ipv4Address {
    /// The bits an address with the given octets has.
    pub open spec fn bits_of_octets(a: u8, b: u8, c: u8, d: u8) -> u32 {
        ((a as u32) << 24) | ((b as u32) << 16) | ((c as u32) << 8) | (d as u32)
    }

    /// Build an address from its four octets.
    pub fn from_octets(a: u8, b: u8, c: u8, d: u8) -> (r: Ipv4Address)
        ensures
            r.bits == Self::bits_of_octets(a, b, c, d),
    {
        Ipv4Address {
            bits: ((a as u32) << 24u32) | ((b as u32) << 16u32) | ((c as u32) << 8u32) | (
            d as u32),
        }
    }

    /// Whether the address lies in the loopback block 127.0.0.0/8.
    pub open spec fn is_loopback_spec(self) -> bool {
        self.bits >> 24 == 127
    }

    /// Whether the address lies in the link-local block 169.254.0.0/16.
    pub open spec fn is_link_local_spec(self) -> bool {
        self.bits >> 16 == 0xa9fe
    }

    pub fn is_loopback(&self) -> (r: bool)
        ensures
            r == self.is_loopback_spec(),
    {
        self.bits >> 24u32 == 127
    }

    pub fn is_link_local(&self) -> (r: bool)
        ensures
            r == self.is_link_local_spec(),
    {
        self.bits >> 16u32 == 0xa9fe
    }

    /// An address is interesting when it may be published: neither
    /// loopback nor link-local.
    pub open spec fn is_interesting_spec(self) -> bool {
        !self.is_loopback_spec() && !self.is_link_local_spec()
    }

    pub fn is_interesting(&self) -> (r: bool)
        ensures
            r == self.is_interesting_spec(),
    {
        !self.is_loopback() && !self.is_link_local()
    }
}

impl Ipv6Address {
    /// The bits an address whose eight 16-bit segments are given has.
    pub open spec fn bits_of_segments(s: [u16; 8]) -> u128 {
        ((s[0] as u128) << 112) | ((s[1] as u128) << 96) | ((s[2] as u128) << 80) | ((s[3] as u128)
            << 64) | ((s[4] as u128) << 48) | ((s[5] as u128) << 32) | ((s[6] as u128) << 16) | (
        s[7] as u128)
    }

    /// Build an address from its eight 16-bit segments.
    pub fn from_segments(s: [u16; 8]) -> (r: Ipv6Address)
        ensures
            r.bits == Self::bits_of_segments(s),
    {
        Ipv6Address {
            bits: ((s[0] as u128) << 112u32) | ((s[1] as u128) << 96u32) | ((s[2] as u128)
                << 80u32) | ((s[3] as u128) << 64u32) | ((s[4] as u128) << 48u32) | ((s[5] as u128)
                << 32u32) | ((s[6] as u128) << 16u32) | (s[7] as u128),
        }
    }

    /// Whether the address is the loopback address ::1.
    pub open spec fn is_loopback_spec(self) -> bool {
        self.bits == 1
    }

    /// Whether the address lies in the unicast link-local block fe80::/10,
    /// read off the first segment.
    pub open spec fn is_unicast_link_local_spec(self) -> bool {
        (self.bits >> 112) & 0xffc0 == 0xfe80
    }

    pub fn is_loopback(&self) -> (r: bool)
        ensures
            r == self.is_loopback_spec(),
    {
        self.bits == 1
    }

    pub fn is_unicast_link_local(&self) -> (r: bool)
        ensures
            r == self.is_unicast_link_local_spec(),
    {
        (self.bits >> 112u32) & 0xffc0 == 0xfe80
    }

    /// An address is interesting when it may be published: neither
    /// loopback nor unicast link-local.
    pub open spec fn is_interesting_spec(self) -> bool {
        !self.is_loopback_spec() && !self.is_unicast_link_local_spec()
    }

    pub fn is_interesting(&self) -> (r: bool)
        ensures
            r == self.is_interesting_spec(),
    {
        !self.is_loopback() && !self.is_unicast_link_local()
    }
}

/// The interface addresses a reconciliation run publishes, one sequence
/// per family, in the order the enumeration produced them.
pub struct Addrs {
    pub v4_addrs: Vec<Ipv4Address>,
    pub v6_addrs: Vec<Ipv6Address>,
}

/// Keep, in order, exactly the addresses of each family that may be
/// published: loopback and link-local addresses are dropped.
pub fn get_interested_addrs(all_v4: Vec<Ipv4Address>, all_v6: Vec<Ipv6Address>) -> (r: Addrs)
    ensures
        r.v4_addrs@ == all_v4@.filter(|a: Ipv4Address| a.is_interesting_spec()),
        r.v6_addrs@ == all_v6@.filter(|a: Ipv6Address| a.is_interesting_spec()),
{
    let mut v4: Vec<Ipv4Address> = Vec::new();
    let mut v6: Vec<Ipv6Address> = Vec::new();
    let mut i: usize = 0;
    while i < all_v4.len()
        invariant
            i <= all_v4.len(),
            v4@ == all_v4@.take(i as int).filter(|a: Ipv4Address| a.is_interesting_spec()),
        decreases all_v4.len() - i,
    {
        let a = all_v4[i];
        if a.is_interesting() {
            v4.push(a);
        }
        proof {
            lemma_filter_take_step(all_v4@, i as int, |x: Ipv4Address| x.is_interesting_spec());
        }
        i = i + 1;
    }
    let mut j: usize = 0;
    while j < all_v6.len()
        invariant
            j <= all_v6.len(),
            v6@ == all_v6@.take(j as int).filter(|a: Ipv6Address| a.is_interesting_spec()),
        decreases all_v6.len() - j,
    {
        let a = all_v6[j];
        if a.is_interesting() {
            v6.push(a);
        }
        proof {
            lemma_filter_take_step(all_v6@, j as int, |x: Ipv6Address| x.is_interesting_spec());
        }
        j = j + 1;
    }
    proof {
        assert(all_v4@.take(all_v4@.len() as int) =~= all_v4@);
        assert(all_v6@.take(all_v6@.len() as int) =~= all_v6@);
    }
    Addrs { v4_addrs: v4, v6_addrs: v6 }
}

/// Filtering one more element extends the filtered prefix by that element
/// exactly when it satisfies the predicate.
proof fn lemma_filter_take_step<A>(s: Seq<A>, i: int, pred: spec_fn(A) -> bool)
    requires
        0 <= i < s.len(),
    ensures
        s.take(i + 1).filter(pred) == s.take(i).filter(pred) + if pred(s[i]) {
            seq![s[i]]
        } else {
            Seq::<A>::empty()
        },
{
    assert(s.take(i + 1).drop_last() =~= s.take(i));
    reveal(Seq::filter);
    if pred(s[i]) {
        assert(s.take(i + 1).filter(pred) =~= s.take(i).filter(pred) + seq![s[i]]);
    } else {
        assert(s.take(i + 1).filter(pred) =~= s.take(i).filter(pred) + Seq::<A>::empty());
    }
}

} // verus!
