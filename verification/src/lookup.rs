//! The lookup itself, as a phase machine over plain values.
//!
//! A lookup encodes the hostname, then issues the blocking native call
//! once, and — when the configured-addresses-only filter was requested and
//! the first result shows the loopback quirk — once more with the filter
//! cleared.  The machine is driven from outside: whoever runs it performs
//! the native call a non-`Done` phase asks for and feeds the reply back in
//! through `lookup_step`.  Each step also says which superseded OS list,
//! if any, must be released now, so that every list a reply hands in is
//! released exactly once or ends up owned by the final cursor.

use vstd::prelude::*;

use crate::addr::AddressRecord;
use crate::cursor::AddrCursor;
use crate::cursor::ips_of;
use crate::quirk::is_all_loopback_of_one_family;
use crate::quirk::quirk_present;

verus! {

/// Hints handed to the native resolver for one call.
#[derive(Clone, Copy, PartialEq, Eq, Structural, Debug)]
pub struct ResolutionHints {
    /// No address-family constraint: candidates of any family.
    pub any_family: bool,
    /// Restrict candidates to stream sockets.
    pub stream_only: bool,
    /// Return only address families configured on local interfaces.
    pub configured_only: bool,
}

/// Why a lookup failed.
#[derive(Clone, Copy, PartialEq, Eq, Structural, Debug)]
pub enum LookupError {
    /// The hostname holds a byte the native call cannot represent: an
    /// embedded null.  Raised before any native call is issued.
    NameEncoding,
    /// The native call returned a non-success status; carries the
    /// platform's last-error code at the time of that call.
    Resolution(i32),
    /// The blocking-work dispatch itself failed; no native call was
    /// reached.
    Scheduling,
}

/// One reply of the native resolver: the handle of the OS-owned result
/// list together with its records read out as plain values, or the
/// platform error code of the failed call.
pub enum ResolveReply {
    Resolved { list: usize, records: Vec<AddressRecord> },
    Failed { code: i32 },
}

/// Where a lookup stands.  A non-`Done` phase asks for one native call
/// with the hints it holds; `Done` is the lookup's outcome.
pub enum LookupPhase {
    /// The first call is owed.
    First { hints: ResolutionHints },
    /// The first result showed the quirk: one retry is owed, and the
    /// first call's list — still unreleased — is recorded here until the
    /// retry's reply arrives.
    Retry { hints: ResolutionHints, superseded: usize },
    /// The lookup is finished.
    Done { outcome: Result<AddrCursor, LookupError> },
}

/// The hints of a lookup's first call: any family, stream sockets, and
/// the configured-addresses-only filter where the platform supports it.
pub open spec fn initial_hints(filter_supported: bool) -> ResolutionHints {
    ResolutionHints { any_family: true, stream_only: true, configured_only: filter_supported }
}

/// The first call's hints with the configured-addresses-only filter
/// cleared; everything else is kept.
pub open spec fn retry_hints(h: ResolutionHints) -> ResolutionHints {
    ResolutionHints { any_family: h.any_family, stream_only: h.stream_only, configured_only: false }
}

/// Encode a hostname for the native call: reject any name with an
/// embedded null byte, and null-terminate the rest.
pub fn encode_hostname(name: &Vec<u8>) -> (r: Result<Vec<u8>, LookupError>)
    ensures
        match r {
            Ok(c) => {
                &&& forall|i: int| 0 <= i < name@.len() ==> name@[i] != 0
                &&& c@ == name@ + seq![0u8]
            },
            Err(e) => {
                &&& e is NameEncoding
                &&& exists|i: int| 0 <= i < name@.len() && name@[i] == 0
            },
        },
{
    let mut out: Vec<u8> = Vec::new();
    let mut i: usize = 0;
    while i < name.len()
        invariant
            i <= name.len(),
            out@ == name@.take(i as int),
            forall|j: int| 0 <= j < i ==> name@[j] != 0,
        decreases name.len() - i,
    {
        let b = name[i];
        if b == 0 {
            return Err(LookupError::NameEncoding);
        }
        out.push(b);
        proof {
            assert(name@.take(i + 1) =~= name@.take(i as int).push(name@[i as int]));
        }
        i = i + 1;
    }
    out.push(0);
    proof {
        assert(name@.take(name@.len() as int) =~= name@);
    }
    Ok(out)
}

/// The phase a lookup starts in: the first call is owed, with the
/// initial hints for this platform.
pub fn initial_phase(filter_supported: bool) -> (p: LookupPhase)
    ensures
        p == (LookupPhase::First { hints: initial_hints(filter_supported) }),
{
    LookupPhase::First {
        hints: ResolutionHints {
            any_family: true,
            stream_only: true,
            configured_only: filter_supported,
        },
    }
}

/// The cursor wraps exactly this reply's result: it owns the reply's
/// list and will yield the addresses of the reply's records, in order.
pub open spec fn cursor_wraps(c: AddrCursor, list: usize, records: Seq<AddressRecord>) -> bool {
    &&& c.wf()
    &&& c.list_spec() == list
    &&& c.remaining() == ips_of(records)
}

/// The full transition relation of the phase machine: what `lookup_step`
/// turns `phase` into on `reply`, and which superseded list, if any, the
/// step orders released.
pub open spec fn step_ok(
    phase: LookupPhase,
    reply: ResolveReply,
    next: LookupPhase,
    release: Option<usize>,
) -> bool {
    match phase {
        LookupPhase::First { hints } => {
            &&& release is None
            &&& match reply {
                ResolveReply::Resolved { list, records } => {
                    if hints.configured_only && quirk_present(records@) {
                        next == (LookupPhase::Retry {
                            hints: retry_hints(hints),
                            superseded: list,
                        })
                    } else {
                        next matches LookupPhase::Done { outcome: Ok(c) } && cursor_wraps(
                            c,
                            list,
                            records@,
                        )
                    }
                },
                ResolveReply::Failed { code } => next == (LookupPhase::Done {
                    outcome: Err(LookupError::Resolution(code)),
                }),
            }
        },
        LookupPhase::Retry { hints, superseded } => {
            &&& release == Some(superseded)
            &&& match reply {
                ResolveReply::Resolved { list, records } => {
                    next matches LookupPhase::Done { outcome: Ok(c) } && cursor_wraps(
                        c,
                        list,
                        records@,
                    )
                },
                ResolveReply::Failed { code } => next == (LookupPhase::Done {
                    outcome: Err(LookupError::Resolution(code)),
                }),
            }
        },
        LookupPhase::Done { .. } => false,
    }
}

/// Advance the lookup by one native-call reply.
///
/// On the first call's success the records are inspected for the loopback
/// quirk: where the configured-addresses-only filter was requested and the
/// quirk is present, the machine asks for one retry with the filter
/// cleared and keeps the first list recorded as superseded; otherwise the
/// lookup finishes with a cursor over this reply's result.  On the first
/// call's failure the lookup fails with that call's error, unretried.  A
/// retry's reply finishes the lookup either way — with a cursor over the
/// retry's result or with the retry's error, never with the superseded
/// first result — and orders the superseded first list released, exactly
/// once the retry's reply is in hand.
pub fn lookup_step(phase: LookupPhase, reply: ResolveReply) -> (r: (LookupPhase, Option<usize>))
    requires
        phase !is Done,
    ensures
        step_ok(phase, reply, r.0, r.1),
{
    match phase {
        LookupPhase::First { hints } => match reply {
            ResolveReply::Resolved { list, records } => {
                if hints.configured_only && is_all_loopback_of_one_family(&records) {
                    (
                        LookupPhase::Retry {
                            hints: ResolutionHints {
                                any_family: hints.any_family,
                                stream_only: hints.stream_only,
                                configured_only: false,
                            },
                            superseded: list,
                        },
                        None,
                    )
                } else {
                    (LookupPhase::Done { outcome: Ok(AddrCursor::new(records, list)) }, None)
                }
            },
            ResolveReply::Failed { code } => {
                (LookupPhase::Done { outcome: Err(LookupError::Resolution(code)) }, None)
            },
        },
        LookupPhase::Retry { hints: _, superseded } => match reply {
            ResolveReply::Resolved { list, records } => {
                (
                    LookupPhase::Done { outcome: Ok(AddrCursor::new(records, list)) },
                    Some(superseded),
                )
            },
            ResolveReply::Failed { code } => {
                (
                    LookupPhase::Done { outcome: Err(LookupError::Resolution(code)) },
                    Some(superseded),
                )
            },
        },
        LookupPhase::Done { outcome } => {
            proof {
                assert(false);
            }
            (LookupPhase::Done { outcome }, None)
        },
    }
}

/// The list a reply hands in, if the call succeeded.
pub open spec fn reply_list(r: ResolveReply) -> Option<usize> {
    match r {
        ResolveReply::Resolved { list, .. } => Some(list),
        ResolveReply::Failed { .. } => None,
    }
}

/// The list the finished lookup's cursor owns, if the lookup succeeded.
pub open spec fn outcome_list(p: LookupPhase) -> Option<usize> {
    match p {
        LookupPhase::Done { outcome: Ok(c) } => Some(c.list_spec()),
        _ => None,
    }
}

/// Law: the phase machine retries exactly when the first call's hints
/// requested the configured-addresses-only filter and the first reply's
/// records show the loopback quirk; the retry it asks for clears the
/// filter, keeps the rest of the hints, and supersedes the first reply's
/// list.  In every other case the lookup finishes at once with a cursor
/// over the first reply's result.
pub proof fn lemma_retry_iff_quirk(
    hints: ResolutionHints,
    list: usize,
    records: Vec<AddressRecord>,
    next: LookupPhase,
    release: Option<usize>,
)
    requires
        step_ok(
            LookupPhase::First { hints },
            ResolveReply::Resolved { list, records },
            next,
            release,
        ),
    ensures
        (next is Retry) == (hints.configured_only && quirk_present(records@)),
        next is Retry ==> next == (LookupPhase::Retry {
            hints: retry_hints(hints),
            superseded: list,
        }),
        !(hints.configured_only && quirk_present(records@)) ==> (next matches LookupPhase::Done {
            outcome: Ok(c),
        } && cursor_wraps(c, list, records@)),
{
}

/// Law: when the retry call fails, the lookup fails with that retry's
/// error — never with the first call's superseded result — and the
/// superseded first list is released by this very step.
pub proof fn lemma_retry_failure_is_final(
    hints: ResolutionHints,
    superseded: usize,
    code: i32,
    next: LookupPhase,
    release: Option<usize>,
)
    requires
        step_ok(
            LookupPhase::Retry { hints, superseded },
            ResolveReply::Failed { code },
            next,
            release,
        ),
    ensures
        next == (LookupPhase::Done { outcome: Err(LookupError::Resolution(code)) }),
        release == Some(superseded),
{
}

/// Law: over a complete run of the phase machine, every OS list a reply
/// hands in is accounted for exactly once.  A run without a retry releases
/// nothing and ends with the first reply's list, if any, owned by the
/// outcome's cursor.  A run with a retry releases the first reply's list
/// exactly once — at the step that consumes the retry's reply — and ends
/// with the retry reply's list, if any, owned by the outcome's cursor.
pub proof fn lemma_lists_accounted_once(
    hints: ResolutionHints,
    first_reply: ResolveReply,
    next1: LookupPhase,
    rel1: Option<usize>,
    retry_reply: ResolveReply,
    next2: LookupPhase,
    rel2: Option<usize>,
)
    requires
        step_ok(LookupPhase::First { hints }, first_reply, next1, rel1),
        next1 is Retry ==> step_ok(next1, retry_reply, next2, rel2),
    ensures
        next1 is Done || next1 is Retry,
        next1 is Done ==> rel1 is None && outcome_list(next1) == reply_list(first_reply),
        next1 is Retry ==> {
            &&& rel1 is None
            &&& first_reply matches ResolveReply::Resolved { list, .. } && rel2 == Some(list)
            &&& next2 is Done
            &&& outcome_list(next2) == reply_list(retry_reply)
        },
        // A finished run's cursor wraps the reply that finished it: the
        // first reply's result where no retry occurred, the retry's —
        // never the superseded first result — where one did.
        next1 is Done ==> (first_reply matches ResolveReply::Resolved { list, records } ==> (
        next1 matches LookupPhase::Done { outcome: Ok(c) } && cursor_wraps(c, list, records@))),
        next1 is Retry ==> (retry_reply matches ResolveReply::Resolved { list, records } ==> (
        next2 matches LookupPhase::Done { outcome: Ok(c) } && cursor_wraps(c, list, records@))),
{
}

} // verus!
