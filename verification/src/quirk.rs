//! The loopback-quirk guard: pure decision logic over a first call's
//! records.  On some platforms the "configured address families only"
//! filter wrongly suppresses one family when the host's only live
//! interfaces are loopback; the lookup must then be retried with the
//! filter cleared.  The quirk is present exactly when every resolved
//! address is a loopback address and the loopback addresses seen span
//! exactly one of the two families.

use vstd::prelude::*;

use crate::addr::AddressRecord;
use crate::addr::IpAddress;
use crate::addr::extract_ip;
use crate::addr::record_ip;
use crate::cursor::ips_of;

verus! {

/// A record passes the loopback test when it yields no address at all or
/// yields a loopback address.
pub open spec fn record_loopback_ok(r: AddressRecord) -> bool {
    match record_ip(r) {
        Some(ip) => ip.is_loopback_spec(),
        None => true,
    }
}

/// Every address the records yield is a loopback address.
pub open spec fn all_loopback(s: Seq<AddressRecord>) -> bool {
    forall|i: int| 0 <= i < s.len() ==> record_loopback_ok(#[trigger] s[i])
}

/// Some record yields an IPv4 address.
pub open spec fn has_v4(s: Seq<AddressRecord>) -> bool {
    exists|i: int| 0 <= i < s.len() && #[trigger] s[i] is V4
}

/// Some record yields an IPv6 address.
pub open spec fn has_v6(s: Seq<AddressRecord>) -> bool {
    exists|i: int| 0 <= i < s.len() && #[trigger] s[i] is V6
}

/// The quirk is present: only loopback addresses were resolved, and the
/// families seen among them are exactly one of IPv4 and IPv6.
pub open spec fn quirk_present(s: Seq<AddressRecord>) -> bool {
    all_loopback(s) && (has_v4(s) != has_v6(s))
}

/// Extending a prefix by one record adds that record's family to the
/// families seen, and nothing else.
proof fn lemma_families_extend(s: Seq<AddressRecord>, i: int)
    requires
        0 <= i < s.len(),
    ensures
        has_v4(s.take(i + 1)) == (has_v4(s.take(i)) || s[i] is V4),
        has_v6(s.take(i + 1)) == (has_v6(s.take(i)) || s[i] is V6),
{
    assert(s.take(i + 1)[i] == s[i]);
    if has_v4(s.take(i + 1)) {
        let j = choose|j: int| 0 <= j < s.take(i + 1).len() && #[trigger] s.take(i + 1)[j] is V4;
        if j < i {
            assert(s.take(i)[j] is V4);
        }
    }
    if has_v4(s.take(i)) {
        let j = choose|j: int| 0 <= j < s.take(i).len() && #[trigger] s.take(i)[j] is V4;
        assert(s.take(i + 1)[j] is V4);
    }
    if has_v6(s.take(i + 1)) {
        let j = choose|j: int| 0 <= j < s.take(i + 1).len() && #[trigger] s.take(i + 1)[j] is V6;
        if j < i {
            assert(s.take(i)[j] is V6);
        }
    }
    if has_v6(s.take(i)) {
        let j = choose|j: int| 0 <= j < s.take(i).len() && #[trigger] s.take(i)[j] is V6;
        assert(s.take(i + 1)[j] is V6);
    }
}

/// Every address in the sequence is a loopback address.
pub open spec fn all_loopback_ips(ips: Seq<IpAddress>) -> bool {
    forall|i: int| 0 <= i < ips.len() ==> #[trigger] ips[i].is_loopback_spec()
}

/// Some address in the sequence is IPv4.
pub open spec fn ips_have_v4(ips: Seq<IpAddress>) -> bool {
    exists|i: int| 0 <= i < ips.len() && #[trigger] ips[i].is_ipv4_spec()
}

/// Some address in the sequence is IPv6.
pub open spec fn ips_have_v6(ips: Seq<IpAddress>) -> bool {
    exists|i: int| 0 <= i < ips.len() && #[trigger] ips[i].is_ipv6_spec()
}

/// Putting one address in front of a sequence adds exactly that address's
/// family, and its loopback obligation, to the sequence's.
proof fn lemma_ips_props_cons(ip: IpAddress, rest: Seq<IpAddress>)
    ensures
        ips_have_v4(seq![ip] + rest) == (ip.is_ipv4_spec() || ips_have_v4(rest)),
        ips_have_v6(seq![ip] + rest) == (ip.is_ipv6_spec() || ips_have_v6(rest)),
        all_loopback_ips(seq![ip] + rest) == (ip.is_loopback_spec() && all_loopback_ips(rest)),
{
    let c = seq![ip] + rest;
    assert(c[0] == ip);
    assert(forall|i: int| 1 <= i < c.len() ==> #[trigger] c[i] == rest[i - 1]);
    if ips_have_v4(c) {
        let j = choose|j: int| 0 <= j < c.len() && #[trigger] c[j].is_ipv4_spec();
        if j >= 1 {
            assert(rest[j - 1].is_ipv4_spec());
        }
    }
    if ips_have_v4(rest) {
        let j = choose|j: int| 0 <= j < rest.len() && #[trigger] rest[j].is_ipv4_spec();
        assert(c[j + 1].is_ipv4_spec());
    }
    if ips_have_v6(c) {
        let j = choose|j: int| 0 <= j < c.len() && #[trigger] c[j].is_ipv6_spec();
        if j >= 1 {
            assert(rest[j - 1].is_ipv6_spec());
        }
    }
    if ips_have_v6(rest) {
        let j = choose|j: int| 0 <= j < rest.len() && #[trigger] rest[j].is_ipv6_spec();
        assert(c[j + 1].is_ipv6_spec());
    }
    if all_loopback_ips(c) {
        assert forall|i: int| 0 <= i < rest.len() implies #[trigger] rest[i].is_loopback_spec() by {
            assert(c[i + 1] == rest[i]);
        }
    }
    if ip.is_loopback_spec() && all_loopback_ips(rest) {
        assert forall|i: int| 0 <= i < c.len() implies #[trigger] c[i].is_loopback_spec() by {
            if i >= 1 {
                assert(c[i] == rest[i - 1]);
            }
        }
    }
}

/// Peeling the first record off a record sequence splits each of the
/// three observations the quirk is made of.
proof fn lemma_record_props_step(s: Seq<AddressRecord>)
    requires
        s.len() > 0,
    ensures
        has_v4(s) == (s[0] is V4 || has_v4(s.skip(1))),
        has_v6(s) == (s[0] is V6 || has_v6(s.skip(1))),
        all_loopback(s) == (record_loopback_ok(s[0]) && all_loopback(s.skip(1))),
{
    let rest = s.skip(1);
    assert(forall|i: int| 0 <= i < rest.len() ==> #[trigger] rest[i] == s[i + 1]);
    if has_v4(s) {
        let j = choose|j: int| 0 <= j < s.len() && #[trigger] s[j] is V4;
        if j >= 1 {
            assert(rest[j - 1] is V4);
        }
    }
    if has_v4(rest) {
        let j = choose|j: int| 0 <= j < rest.len() && #[trigger] rest[j] is V4;
        assert(s[j + 1] is V4);
    }
    if has_v6(s) {
        let j = choose|j: int| 0 <= j < s.len() && #[trigger] s[j] is V6;
        if j >= 1 {
            assert(rest[j - 1] is V6);
        }
    }
    if has_v6(rest) {
        let j = choose|j: int| 0 <= j < rest.len() && #[trigger] rest[j] is V6;
        assert(s[j + 1] is V6);
    }
    if all_loopback(s) {
        assert forall|i: int| 0 <= i < rest.len() implies record_loopback_ok(
            #[trigger] rest[i],
        ) by {
            assert(rest[i] == s[i + 1]);
        }
    }
    if record_loopback_ok(s[0]) && all_loopback(rest) {
        assert forall|i: int| 0 <= i < s.len() implies record_loopback_ok(#[trigger] s[i]) by {
            if i >= 1 {
                assert(s[i] == rest[i - 1]);
            }
        }
    }
}

/// Each observation the quirk is made of reads the same off the records
/// and off the addresses they yield.
proof fn lemma_props_over_addresses(s: Seq<AddressRecord>)
    ensures
        has_v4(s) == ips_have_v4(ips_of(s)),
        has_v6(s) == ips_have_v6(ips_of(s)),
        all_loopback(s) == all_loopback_ips(ips_of(s)),
    decreases s.len(),
{
    if s.len() == 0 {
        assert(!has_v4(s));
        assert(!ips_have_v4(ips_of(s)));
        assert(!has_v6(s));
        assert(!ips_have_v6(ips_of(s)));
    } else {
        let rest = s.skip(1);
        lemma_props_over_addresses(rest);
        lemma_record_props_step(s);
        match record_ip(s[0]) {
            Some(ip) => {
                assert(ips_of(s) == seq![ip] + ips_of(rest));
                lemma_ips_props_cons(ip, ips_of(rest));
                assert(ip.is_ipv4_spec() == s[0] is V4);
                assert(ip.is_ipv6_spec() == s[0] is V6);
                assert(record_loopback_ok(s[0]) == ip.is_loopback_spec());
            },
            None => {
                assert(ips_of(s) == ips_of(rest));
                assert(!(s[0] is V4) && !(s[0] is V6));
                assert(record_loopback_ok(s[0]));
            },
        }
    }
}

/// Law: the quirk decision over the raw records coincides with the same
/// reading over the addresses the records yield — every resolved address
/// is a loopback address, and the addresses span exactly one of the two
/// families.  Records of unsupported families, which yield no address,
/// do not weigh in.
pub proof fn lemma_quirk_over_addresses(s: Seq<AddressRecord>)
    ensures
        quirk_present(s) == (all_loopback_ips(ips_of(s)) && (ips_have_v4(ips_of(s))
            != ips_have_v6(ips_of(s)))),
{
    lemma_props_over_addresses(s);
}

/// Decide in one forward pass whether the first call's records show the
/// loopback quirk, short-circuiting on the first non-loopback address.
///
/// The guard only reads the records: the OS list behind them stays live
/// and is released by its owner, never here.
pub fn is_all_loopback_of_one_family(records: &Vec<AddressRecord>) -> (r: bool)
    ensures
        r == quirk_present(records@),
{
    let mut have_ipv4 = false;
    let mut have_ipv6 = false;
    let mut i: usize = 0;
    while i < records.len()
        invariant
            i <= records.len(),
            forall|j: int| 0 <= j < i ==> record_loopback_ok(#[trigger] records@[j]),
            have_ipv4 == has_v4(records@.take(i as int)),
            have_ipv6 == has_v6(records@.take(i as int)),
        decreases records.len() - i,
    {
        proof {
            lemma_families_extend(records@, i as int);
        }
        match extract_ip(&records[i]) {
            Some(ip) => {
                if !ip.is_loopback() {
                    assert(!record_loopback_ok(records@[i as int]));
                    return false;
                }
                have_ipv4 = have_ipv4 || ip.is_ipv4();
                have_ipv6 = have_ipv6 || ip.is_ipv6();
            },
            None => {},
        }
        i = i + 1;
    }
    proof {
        assert(records@.take(records@.len() as int) =~= records@);
    }
    have_ipv4 != have_ipv6
}

} // verus!
