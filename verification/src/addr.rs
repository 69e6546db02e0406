//! Plain-value model of the address records that the native resolver
//! returns: an IP address tagged with its family, and a record that is
//! either such an address or an entry of some unsupported family.

use vstd::prelude::*;

verus! {

/// A resolved IP address, tagged IPv4 or IPv6.
///
/// An IPv4 address is its four octets; an IPv6 address is its eight
/// 16-bit segments.
#[derive(Clone, Copy, PartialEq, Eq, Structural, Debug)]
pub enum IpAddress {
    V4(u8, u8, u8, u8),
    V6(u16, u16, u16, u16, u16, u16, u16, u16),
}

impl IpAddress {
    /// An IPv4 address is loopback when it lies in 127.0.0.0/8; an IPv6
    /// address only when it is ::1 exactly.
    pub open spec fn is_loopback_spec(self) -> bool {
        match self {
            IpAddress::V4(a, _, _, _) => a == 127,
            IpAddress::V6(a, b, c, d, e, f, g, h) => {
                a == 0 && b == 0 && c == 0 && d == 0 && e == 0 && f == 0 && g == 0 && h == 1
            },
        }
    }

    pub open spec fn is_ipv4_spec(self) -> bool {
        self is V4
    }

    pub open spec fn is_ipv6_spec(self) -> bool {
        self is V6
    }

    pub fn is_loopback(&self) -> (r: bool)
        ensures
            r == self.is_loopback_spec(),
    {
        match self {
            IpAddress::V4(a, _, _, _) => *a == 127,
            IpAddress::V6(a, b, c, d, e, f, g, h) => {
                *a == 0 && *b == 0 && *c == 0 && *d == 0 && *e == 0 && *f == 0 && *g == 0 && *h
                    == 1
            },
        }
    }

    pub fn is_ipv4(&self) -> (r: bool)
        ensures
            r == self.is_ipv4_spec(),
    {
        matches!(self, IpAddress::V4(..))
    }

    pub fn is_ipv6(&self) -> (r: bool)
        ensures
            r == self.is_ipv6_spec(),
    {
        matches!(self, IpAddress::V6(..))
    }
}

/// One record of the native resolver's result list, reduced to what the
/// adapter reads from it: the address when the record's family is IPv4 or
/// IPv6, and nothing otherwise.
#[derive(Clone, Copy, PartialEq, Eq, Structural, Debug)]
pub enum AddressRecord {
    V4(u8, u8, u8, u8),
    V6(u16, u16, u16, u16, u16, u16, u16, u16),
    Unsupported,
}

/// The address a record yields, if its family is one the adapter handles.
pub open spec fn record_ip(r: AddressRecord) -> Option<IpAddress> {
    match r {
        AddressRecord::V4(a, b, c, d) => Some(IpAddress::V4(a, b, c, d)),
        AddressRecord::V6(a, b, c, d, e, f, g, h) => Some(IpAddress::V6(a, b, c, d, e, f, g, h)),
        AddressRecord::Unsupported => None,
    }
}

/// Read the record's address, `None` for a record of an unsupported family.
pub fn extract_ip(r: &AddressRecord) -> (o: Option<IpAddress>)
    ensures
        o == record_ip(*r),
{
    match r {
        AddressRecord::V4(a, b, c, d) => Some(IpAddress::V4(*a, *b, *c, *d)),
        AddressRecord::V6(a, b, c, d, e, f, g, h) => Some(
            IpAddress::V6(*a, *b, *c, *d, *e, *f, *g, *h),
        ),
        AddressRecord::Unsupported => None,
    }
}

} // verus!
