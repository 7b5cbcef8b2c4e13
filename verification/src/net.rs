//! Network addresses and CIDR ranges as plain integers, and the calls into
//! `ipnetwork` that parse and match them.

use ipnetwork::IpNetwork;
use std::str::FromStr;
use vstd::prelude::*;
use vstd::string::StrSliceExecFns;

verus! {

/// An IP address of either family, held as its bits with the first octet
/// highest.
#[derive(Clone, Copy, Debug, PartialEq, Eq, Structural)]
pub enum Address {
    V4(u32),
    V6(u128),
}

/// A CIDR range: a base address and the number of its leading bits that an
/// address must share to lie in the range.
#[derive(Clone, Copy, Debug)]
pub struct Network {
    base: Address,
    prefix: u8,
}

/// The mask of an IPv4 range: the `prefix` leading bits set.
pub open spec fn v4_mask(prefix: u8) -> u32 {
    (!(0xffff_ffffu64 >> (prefix as u64))) as u32
}

/// The mask of an IPv6 range: the `prefix` leading bits set.
pub open spec fn v6_mask(prefix: u8) -> u128 {
    if prefix == 0 {
        0u128
    } else {
        u128::MAX << ((128 - prefix) as u128)
    }
}

impl Address {
    /// The number of bits of an address of this family.
    pub open spec fn bits(self) -> u8 {
        match self {
            Address::V4(_) => 32u8,
            Address::V6(_) => 128u8,
        }
    }
}

impl Network {
    pub closed spec fn base(self) -> Address {
        self.base
    }

    pub closed spec fn prefix(self) -> u8 {
        self.prefix
    }

    /// The prefix is no longer than an address of the range's family.
    pub open spec fn wf(self) -> bool {
        self.prefix() <= self.base().bits()
    }

    #[verifier::type_invariant]
    spec fn inv(self) -> bool {
        self.prefix <= self.base.bits()
    }

    /// Whether `addr` lies in the range: it is of the base's family and
    /// agrees with the base on every bit of the mask.
    pub open spec fn covers(self, addr: Address) -> bool {
        match (self.base(), addr) {
            (Address::V4(b), Address::V4(a)) => {
                let mask = v4_mask(self.prefix());
                (a & mask) == (b & mask)
            },
            (Address::V6(b), Address::V6(a)) => {
                let mask = v6_mask(self.prefix());
                (a & mask) == (b & mask)
            },
            _ => false,
        }
    }

    /// The range of `prefix` leading bits around `base`, unless the prefix is
    /// longer than the address.
    pub fn new(base: Address, prefix: u8) -> (r: Option<Network>)
        ensures
            r is Some <==> prefix <= base.bits(),
            r matches Some(n) ==> n.base() == base && n.prefix() == prefix && n.wf(),
    {
        let bits: u8 = match base {
            Address::V4(_) => 32,
            Address::V6(_) => 128,
        };
        if prefix <= bits {
            Some(Network { base, prefix })
        } else {
            None
        }
    }

    /// Whether `addr` lies in the range.
    pub fn contains(&self, addr: &Address) -> (r: bool)
        ensures
            r == self.covers(*addr),
    {
        proof {
            use_type_invariant(self);
        }
        network_contains(self, addr)
    }
}

/// What `IpNetwork::from_str` makes of a text: the range, or `None` where it
/// returns an error.
pub uninterp spec fn network_of_text(text: Seq<char>) -> Option<Network>;

/// The address that a text denotes: a text without `/` that reads as a
/// range denotes the base of that range, and no other text denotes one.
pub open spec fn address_of_text(text: Seq<char>) -> Option<Address> {
    if text.contains('/') {
        None
    } else {
        match network_of_text(text) {
            Some(n) => Some(n.base()),
            None => None,
        }
    }
}

/// Calls `ipnetwork::IpNetwork::from_str`. The result is a function of the
/// text alone; a range that it returns has a prefix of at most 32 bits
/// (IPv4) or 128 bits (IPv6), which the constructors of the crate enforce.
#[verifier::external_body]
pub(crate) fn parse_network(text: &str) -> (r: Option<Network>)
    ensures
        r == network_of_text(text@),
        r matches Some(n) ==> n.wf(),
{
    match IpNetwork::from_str(text) {
        Ok(IpNetwork::V4(n)) => Some(Network { base: Address::V4(n.ip().into()), prefix: n.prefix() }),
        Ok(IpNetwork::V6(n)) => Some(Network { base: Address::V6(n.ip().into()), prefix: n.prefix() }),
        Err(_) => None,
    }
}

/// Calls `ipnetwork::IpNetwork::contains` on the range that
/// `IpNetwork::new` builds from the base and the prefix. An address of the
/// other family is never contained; one of the same family is contained
/// when it agrees with the base under the mask of the prefix.
#[verifier::external_body]
pub(crate) fn network_contains(net: &Network, addr: &Address) -> (r: bool)
    requires
        net.wf(),
    ensures
        r == net.covers(*addr),
{
    let ip = match *addr {
        Address::V4(a) => a.to_be_bytes().into(),
        Address::V6(a) => a.to_be_bytes().into(),
    };
    let base = match net.base {
        Address::V4(b) => b.to_be_bytes().into(),
        Address::V6(b) => b.to_be_bytes().into(),
    };
    match IpNetwork::new(base, net.prefix) {
        Ok(n) => n.contains(ip),
        Err(_) => false,
    }
}

/// Whether `c` occurs in `text`.
pub fn has_char(text: &str, c: char) -> (r: bool)
    ensures
        r == text@.contains(c),
{
    let n: usize = text.unicode_len();
    let mut i: usize = 0;
    while i < n
        invariant
            n == text@.len(),
            i <= n,
            forall|j: int| 0 <= j < i ==> text@[j] != c,
        decreases n - i,
    {
        if text.get_char(i) == c {
            return true;
        }
        i += 1;
    }
    false
}

/// The address that `text` denotes, if it denotes one.
pub fn parse_address(text: &str) -> (r: Option<Address>)
    ensures
        r == address_of_text(text@),
{
    match parse_network(text) {
        Some(n) => {
            if has_char(text, '/') {
                None
            } else {
                Some(n.base)
            }
        },
        None => None,
    }
}

/// A range of IPv4 holds exactly the addresses that share the leading
/// `prefix` bits of its base: all of them where the prefix is empty.
pub proof fn lemma_v4_covers_by_leading_bits(net: Network, a: u32)
    requires
        net.wf(),
        net.base() is V4,
    ensures
        net.covers(Address::V4(a)) <==> (net.prefix() == 0 || (a >> ((32 - net.prefix()) as u32))
            == (net.base()->V4_0 >> ((32 - net.prefix()) as u32))),
{
    let b: u32 = net.base()->V4_0;
    let p: u64 = net.prefix() as u64;
    let s: u32 = (32 - net.prefix()) as u32;
    assert(p <= 32 && s == 32 - p ==> (((a & ((!(0xffff_ffffu64 >> p)) as u32)) == (b & ((!(
        0xffff_ffffu64 >> p
    )) as u32))) <==> (p == 0 || (a >> s) == (b >> s)))) by (bit_vector);
}

/// A range of IPv6 holds exactly the addresses that share the leading
/// `prefix` bits of its base: all of them where the prefix is empty.
#[verifier::rlimit(100)]
pub proof fn lemma_v6_covers_by_leading_bits(net: Network, a: u128)
    requires
        net.wf(),
        net.base() is V6,
    ensures
        net.covers(Address::V6(a)) <==> (net.prefix() == 0 || (a >> ((128 - net.prefix()) as u128))
            == (net.base()->V6_0 >> ((128 - net.prefix()) as u128))),
{
    let b: u128 = net.base()->V6_0;
    let s: u128 = (128 - net.prefix()) as u128;
    if net.prefix() != 0 {
        let m: u128 = u128::MAX << s;
        let x: u128 = a ^ b;
        assert(((a & m) == (b & m)) <==> ((a ^ b) & m) == 0) by (bit_vector);
        assert(s < 128 ==> (((x & (0xffff_ffff_ffff_ffff_ffff_ffff_ffff_ffffu128 << s)) == 0) <==> (
        x >> s) == 0)) by (bit_vector);
        assert(((a ^ b) >> s) == ((a >> s) ^ (b >> s))) by (bit_vector);
        let u: u128 = a >> s;
        let v: u128 = b >> s;
        assert((u ^ v) == 0 <==> u == v) by (bit_vector);
    } else {
        assert(a & 0u128 == b & 0u128) by (bit_vector);
    }
}

} // verus!
