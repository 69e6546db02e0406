//! The cursor over a resolution result: a lazy, forward-only, single-pass
//! sequence of IP addresses drawn from the result's records, silently
//! skipping records of unsupported families.  The cursor also owns the
//! handle of the OS list the records came from, so that whoever holds the
//! cursor releases that list exactly once when done with it.

use vstd::prelude::*;

use crate::addr::AddressRecord;
use crate::addr::IpAddress;
use crate::addr::extract_ip;
use crate::addr::record_ip;

verus! {

/// The addresses a record sequence yields, in order: each record's address
/// when its family is supported, and no entry at all otherwise.
pub open spec fn ips_of(s: Seq<AddressRecord>) -> Seq<IpAddress>
    decreases s.len(),
{
    if s.len() == 0 {
        Seq::empty()
    } else {
        match record_ip(s[0]) {
            Some(ip) => seq![ip] + ips_of(s.skip(1)),
            None => ips_of(s.skip(1)),
        }
    }
}

/// Peeling one record off the front of a suffix: a supported record
/// contributes its address ahead of the rest, an unsupported one
/// contributes nothing.
pub proof fn lemma_ips_of_step(s: Seq<AddressRecord>, p: int)
    requires
        0 <= p < s.len(),
    ensures
        ips_of(s.skip(p)) == match record_ip(s[p]) {
            Some(ip) => seq![ip] + ips_of(s.skip(p + 1)),
            None => ips_of(s.skip(p + 1)),
        },
{
    assert(s.skip(p).len() == s.len() - p);
    assert(s.skip(p)[0] == s[p]);
    assert(s.skip(p).skip(1) =~= s.skip(p + 1));
}

/// Law: the address sequence is finite, bounded by the record list's
/// length — skipping records of unsupported families only ever shortens
/// it.
pub proof fn lemma_ips_of_len(s: Seq<AddressRecord>)
    ensures
        ips_of(s).len() <= s.len(),
    decreases s.len(),
{
    if s.len() > 0 {
        lemma_ips_of_len(s.skip(1));
    }
}

/// A list with no records yields no addresses.
pub proof fn lemma_ips_of_empty(s: Seq<AddressRecord>)
    requires
        s.len() == 0,
    ensures
        ips_of(s) == Seq::<IpAddress>::empty(),
{
}

/// Cursor over one resolution's records.
///
/// Yields the records' addresses one at a time, in list order, skipping
/// records of unsupported families; once exhausted it stays exhausted.
/// It carries the handle of the OS-owned list that produced the records,
/// to be released exactly once by its final owner.
#[derive(Debug)]
pub struct AddrCursor {
    records: Vec<AddressRecord>,
    pos: usize,
    list: usize,
}

impl AddrCursor {
    pub closed spec fn wf(self) -> bool {
        self.pos <= self.records.len()
    }

    /// The addresses the cursor has yet to yield, in order.
    pub closed spec fn remaining(self) -> Seq<IpAddress> {
        ips_of(self.records@.skip(self.pos as int))
    }

    /// The handle of the OS list this cursor owns.
    pub closed spec fn list_spec(self) -> usize {
        self.list
    }

    /// Wrap one resolution's records, together with the handle of the OS
    /// list they came from.
    pub fn new(records: Vec<AddressRecord>, list: usize) -> (c: AddrCursor)
        ensures
            c.wf(),
            c.remaining() == ips_of(records@),
            c.list_spec() == list,
    {
        let c = AddrCursor { records, pos: 0, list };
        proof {
            assert(c.records@.skip(0) =~= c.records@);
        }
        c
    }

    /// The handle of the OS list this cursor owns, for its final owner to
    /// release exactly once.
    pub fn list_handle(&self) -> (l: usize)
        ensures
            l == self.list_spec(),
    {
        self.list
    }

    /// Yield the next address, walking past records of unsupported
    /// families; `None` once no supported record is left, and `None` on
    /// every call after that.
    pub fn next(&mut self) -> (r: Option<IpAddress>)
        requires
            old(self).wf(),
        ensures
            final(self).wf(),
            final(self).list_spec() == old(self).list_spec(),
            match r {
                Some(ip) => {
                    &&& old(self).remaining().len() > 0
                    &&& ip == old(self).remaining()[0]
                    &&& final(self).remaining() == old(self).remaining().skip(1)
                },
                None => {
                    &&& old(self).remaining() == Seq::<IpAddress>::empty()
                    &&& final(self).remaining() == Seq::<IpAddress>::empty()
                },
            },
    {
        let ghost entry = *self;
        while self.pos < self.records.len()
            invariant
                entry == *old(self),
                self.wf(),
                self.records == entry.records,
                self.list == entry.list,
                ips_of(self.records@.skip(self.pos as int)) == entry.remaining(),
            decreases self.records.len() - self.pos,
        {
            proof {
                lemma_ips_of_step(self.records@, self.pos as int);
            }
            let found = extract_ip(&self.records[self.pos]);
            self.pos = self.pos + 1;
            if let Some(ip) = found {
                proof {
                    assert(entry.remaining() == seq![ip] + ips_of(
                        self.records@.skip(self.pos as int),
                    ));
                    assert(entry.remaining()[0] == ip);
                    assert(entry.remaining().skip(1) =~= ips_of(
                        self.records@.skip(self.pos as int),
                    ));
                }
                return Some(ip);
            }
        }
        proof {
            assert(self.records@.skip(self.pos as int) =~= Seq::<AddressRecord>::empty());
            lemma_ips_of_empty(self.records@.skip(self.pos as int));
        }
        None
    }
}

} // verus!
