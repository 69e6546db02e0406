//! Scenario tests for the resolution adapter, driven through a fake
//! native resolver: canned replies fed to the phase machine, with
//! allocate/release counting over the OS-list handles.

use gai_resolver::addr::AddressRecord;
use gai_resolver::addr::IpAddress;
use gai_resolver::cursor::AddrCursor;
use gai_resolver::lookup::LookupError;
use gai_resolver::lookup::LookupPhase;
use gai_resolver::lookup::ResolveReply;
use gai_resolver::lookup::encode_hostname;
use gai_resolver::lookup::initial_phase;
use gai_resolver::lookup::lookup_step;
use gai_resolver::quirk::is_all_loopback_of_one_family;

const LOOPBACK_V4: AddressRecord = AddressRecord::V4(127, 0, 0, 1);
const LOOPBACK_V6: AddressRecord = AddressRecord::V6(0, 0, 0, 0, 0, 0, 0, 1);
const PUBLIC_V4: AddressRecord = AddressRecord::V4(93, 184, 216, 34);
const PUBLIC_V6: AddressRecord = AddressRecord::V6(0x2606, 0x2800, 0x220, 1, 0x248, 0x1893, 0x25c8, 0x1946);

/// Drive one whole lookup against a fake resolver with canned replies.
/// Returns the outcome, how many native calls were made, the hints of
/// each call, and the list handles released along the way.
fn run_lookup(
    filter_supported: bool,
    mut replies: Vec<ResolveReply>,
) -> (
    Result<AddrCursor, LookupError>,
    usize,
    Vec<gai_resolver::lookup::ResolutionHints>,
    Vec<usize>,
) {
    let mut phase = initial_phase(filter_supported);
    let mut calls: usize = 0;
    let mut hints_seen = Vec::new();
    let mut released = Vec::new();
    loop {
        match phase {
            LookupPhase::First { hints } | LookupPhase::Retry { hints, .. } => {
                hints_seen.push(hints);
            }
            LookupPhase::Done { outcome } => return (outcome, calls, hints_seen, released),
        }
        assert!(!replies.is_empty(), "fake resolver ran out of replies");
        let reply = replies.remove(0);
        calls += 1;
        let (next, release) = lookup_step(phase, reply);
        if let Some(list) = release {
            released.push(list);
        }
        phase = next;
    }
}

fn drain(cursor: &mut AddrCursor) -> Vec<IpAddress> {
    let mut out = Vec::new();
    while let Some(ip) = cursor.next() {
        out.push(ip);
    }
    out
}

#[test]
fn encode_appends_terminator() {
    let name: Vec<u8> = b"localhost".to_vec();
    let encoded = encode_hostname(&name).expect("plain name must encode");
    assert_eq!(encoded, b"localhost\0".to_vec());
}

#[test]
fn encode_of_empty_name_is_terminator_alone() {
    let name: Vec<u8> = Vec::new();
    assert_eq!(encode_hostname(&name), Ok(vec![0u8]));
}

#[test]
fn encode_rejects_embedded_null() {
    let name: Vec<u8> = b"bad\0host".to_vec();
    assert_eq!(encode_hostname(&name), Err(LookupError::NameEncoding));
}

#[test]
fn encode_failure_reaches_no_native_call() {
    // A name that cannot be encoded fails before a phase machine is even
    // started, so the fake resolver is never consulted.
    let name: Vec<u8> = vec![104, 0, 105];
    match encode_hostname(&name) {
        Err(LookupError::NameEncoding) => {}
        other => panic!("expected a name-encoding failure, got {:?}", other),
    }
}

#[test]
fn initial_phase_carries_platform_filter() {
    match initial_phase(true) {
        LookupPhase::First { hints } => {
            assert!(hints.any_family);
            assert!(hints.stream_only);
            assert!(hints.configured_only);
        }
        _ => panic!("a lookup must start at its first call"),
    }
    match initial_phase(false) {
        LookupPhase::First { hints } => assert!(!hints.configured_only),
        _ => panic!("a lookup must start at its first call"),
    }
}

#[test]
fn quirk_detected_for_v4_only_loopback() {
    let records = vec![LOOPBACK_V4, LOOPBACK_V4];
    assert!(is_all_loopback_of_one_family(&records));
}

#[test]
fn quirk_detected_for_v6_only_loopback() {
    let records = vec![LOOPBACK_V6];
    assert!(is_all_loopback_of_one_family(&records));
}

#[test]
fn quirk_absent_when_families_mix() {
    let records = vec![LOOPBACK_V4, LOOPBACK_V6];
    assert!(!is_all_loopback_of_one_family(&records));
}

#[test]
fn quirk_absent_on_non_loopback() {
    let records = vec![LOOPBACK_V4, PUBLIC_V4];
    assert!(!is_all_loopback_of_one_family(&records));
}

#[test]
fn quirk_absent_on_empty_list() {
    let records: Vec<AddressRecord> = Vec::new();
    assert!(!is_all_loopback_of_one_family(&records));
}

#[test]
fn quirk_absent_when_only_unsupported_records() {
    let records = vec![AddressRecord::Unsupported, AddressRecord::Unsupported];
    assert!(!is_all_loopback_of_one_family(&records));
}

#[test]
fn v4_only_loopback_triggers_exactly_one_retry() {
    let first = ResolveReply::Resolved { list: 1, records: vec![LOOPBACK_V4] };
    let second = ResolveReply::Resolved { list: 2, records: vec![PUBLIC_V4, PUBLIC_V6] };
    let (outcome, calls, hints_seen, released) = run_lookup(true, vec![first, second]);
    assert_eq!(calls, 2);
    assert!(hints_seen[0].configured_only);
    assert!(!hints_seen[1].configured_only);
    assert!(hints_seen[1].any_family);
    assert!(hints_seen[1].stream_only);
    // The first call's list is superseded and released exactly once.
    assert_eq!(released, vec![1]);
    // The cursor reflects the retry's results, not the first call's.
    let mut cursor = outcome.expect("retry succeeded");
    assert_eq!(cursor.list_handle(), 2);
    assert_eq!(
        drain(&mut cursor),
        vec![IpAddress::V4(93, 184, 216, 34),
             IpAddress::V6(0x2606, 0x2800, 0x220, 1, 0x248, 0x1893, 0x25c8, 0x1946)]
    );
}

#[test]
fn mixed_first_response_is_not_retried() {
    let first = ResolveReply::Resolved { list: 9, records: vec![LOOPBACK_V4, PUBLIC_V4] };
    let (outcome, calls, _, released) = run_lookup(true, vec![first]);
    assert_eq!(calls, 1);
    assert!(released.is_empty());
    let mut cursor = outcome.expect("first call succeeded");
    assert_eq!(cursor.list_handle(), 9);
    assert_eq!(
        drain(&mut cursor),
        vec![IpAddress::V4(127, 0, 0, 1), IpAddress::V4(93, 184, 216, 34)]
    );
}

#[test]
fn loopback_of_both_families_is_not_retried() {
    let first = ResolveReply::Resolved { list: 4, records: vec![LOOPBACK_V4, LOOPBACK_V6] };
    let (outcome, calls, _, released) = run_lookup(true, vec![first]);
    assert_eq!(calls, 1);
    assert!(released.is_empty());
    let cursor = outcome.expect("first call succeeded");
    assert_eq!(cursor.list_handle(), 4);
}

#[test]
fn unsupported_filter_flag_never_retries() {
    // Where the platform does not support the filter flag, the quirk can
    // never trigger, even on an all-loopback single-family result.
    let first = ResolveReply::Resolved { list: 3, records: vec![LOOPBACK_V4] };
    let (outcome, calls, hints_seen, released) = run_lookup(false, vec![first]);
    assert_eq!(calls, 1);
    assert!(!hints_seen[0].configured_only);
    assert!(released.is_empty());
    assert_eq!(outcome.expect("first call succeeded").list_handle(), 3);
}

#[test]
fn first_failure_is_terminal_and_unretried() {
    let first = ResolveReply::Failed { code: 11 };
    let (outcome, calls, _, released) = run_lookup(true, vec![first]);
    assert_eq!(calls, 1);
    assert!(released.is_empty());
    assert_eq!(outcome.expect_err("failure must surface"), LookupError::Resolution(11));
}

#[test]
fn retry_failure_wins_over_first_result() {
    let first = ResolveReply::Resolved { list: 5, records: vec![LOOPBACK_V6] };
    let second = ResolveReply::Failed { code: 42 };
    let (outcome, calls, _, released) = run_lookup(true, vec![first, second]);
    assert_eq!(calls, 2);
    // The superseded first list is still released, exactly once.
    assert_eq!(released, vec![5]);
    assert_eq!(outcome.expect_err("retry failed"), LookupError::Resolution(42));
}

#[test]
fn unsupported_records_are_skipped_not_terminal() {
    let records = vec![
        AddressRecord::V4(10, 0, 0, 1),
        AddressRecord::Unsupported,
        LOOPBACK_V6,
        AddressRecord::Unsupported,
    ];
    let mut cursor = AddrCursor::new(records, 0);
    assert_eq!(cursor.next(), Some(IpAddress::V4(10, 0, 0, 1)));
    assert_eq!(cursor.next(), Some(IpAddress::V6(0, 0, 0, 0, 0, 0, 0, 1)));
    // A list ending in unsupported records yields all prior addresses and
    // then ends cleanly, idempotently.
    assert_eq!(cursor.next(), None);
    assert_eq!(cursor.next(), None);
}

#[test]
fn cursor_over_empty_list_yields_nothing() {
    let mut cursor = AddrCursor::new(Vec::new(), 8);
    assert_eq!(cursor.next(), None);
    assert_eq!(cursor.list_handle(), 8);
}

#[test]
fn every_list_is_accounted_exactly_once() {
    // Instrumented fake resolver: allocated handles against released ones,
    // the final cursor's list counting as released by its owner.
    let scenarios: Vec<(bool, Vec<ResolveReply>)> = vec![
        (true, vec![ResolveReply::Resolved { list: 1, records: vec![PUBLIC_V4] }]),
        (
            true,
            vec![
                ResolveReply::Resolved { list: 1, records: vec![LOOPBACK_V4] },
                ResolveReply::Resolved { list: 2, records: vec![PUBLIC_V6] },
            ],
        ),
        (
            true,
            vec![
                ResolveReply::Resolved { list: 1, records: vec![LOOPBACK_V6] },
                ResolveReply::Failed { code: 7 },
            ],
        ),
        (true, vec![ResolveReply::Failed { code: 3 }]),
        (false, vec![ResolveReply::Resolved { list: 1, records: vec![LOOPBACK_V4] }]),
    ];
    for (filter, replies) in scenarios {
        let allocated: Vec<usize> = replies
            .iter()
            .filter_map(|r| match r {
                ResolveReply::Resolved { list, .. } => Some(*list),
                ResolveReply::Failed { .. } => None,
            })
            .collect();
        let (outcome, _, _, mut released) = run_lookup(filter, replies);
        if let Ok(cursor) = outcome {
            released.push(cursor.list_handle());
        }
        released.sort();
        assert_eq!(released, allocated, "every allocated list must be released exactly once");
    }
}
