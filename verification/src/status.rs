//! Serving statuses and process exit codes.

use tonic_health::pb::health_check_response::ServingStatus as WireStatus;
use vstd::prelude::*;

verus! {

/// The serving status of a service, as `grpc.health.v1` defines it.
#[derive(Debug, Clone, Copy, PartialEq, Eq, Structural)]
pub enum ServingStatus {
    /// The server does not know.
    Unknown,
    /// The service is up.
    Serving,
    /// The service is down.
    NotServing,
    /// The server does not know the service; used by watch streams.
    ServiceUnknown,
}

/// The status that a wire code stands for; an out-of-range code stands for UNKNOWN.
pub open spec fn decoded(raw: i32) -> ServingStatus {
    if raw == 1 {
        ServingStatus::Serving
    } else if raw == 2 {
        ServingStatus::NotServing
    } else if raw == 3 {
        ServingStatus::ServiceUnknown
    } else {
        ServingStatus::Unknown
    }
}

/// The name of a status in the protocol definition.
pub open spec fn status_word(status: ServingStatus) -> Seq<char> {
    match status {
        ServingStatus::Unknown => "UNKNOWN"@,
        ServingStatus::Serving => "SERVING"@,
        ServingStatus::NotServing => "NOT_SERVING"@,
        ServingStatus::ServiceUnknown => "SERVICE_UNKNOWN"@,
    }
}

/// Calls `try_from` of `tonic_health::pb::health_check_response::ServingStatus`:
/// the codes 0 to 3 are UNKNOWN, SERVING, NOT_SERVING and SERVICE_UNKNOWN, and
/// every other code is refused.
#[verifier::external_body]
fn wire_status(raw: i32) -> (r: Option<ServingStatus>)
    ensures
        r is Some <==> 0 <= raw <= 3,
        r matches Some(status) ==> status == decoded(raw),
{
    match WireStatus::try_from(raw) {
        Ok(WireStatus::Unknown) => Some(ServingStatus::Unknown),
        Ok(WireStatus::Serving) => Some(ServingStatus::Serving),
        Ok(WireStatus::NotServing) => Some(ServingStatus::NotServing),
        Ok(WireStatus::ServiceUnknown) => Some(ServingStatus::ServiceUnknown),
        Err(_) => None,
    }
}

/// Calls `as_str_name` of `tonic_health::pb::health_check_response::ServingStatus`:
/// the name of the status in the protocol definition.
#[verifier::external_body]
pub(crate) fn status_name(status: ServingStatus) -> (r: &'static str)
    ensures
        r@ == status_word(status),
{
    let wire = match status {
        ServingStatus::Unknown => WireStatus::Unknown,
        ServingStatus::Serving => WireStatus::Serving,
        ServingStatus::NotServing => WireStatus::NotServing,
        ServingStatus::ServiceUnknown => WireStatus::ServiceUnknown,
    };
    wire.as_str_name()
}

/// Decodes a wire status code, treating an out-of-range value as UNKNOWN.
pub fn decode_status(raw: i32) -> (r: ServingStatus)
    ensures
        r == decoded(raw),
{
    match wire_status(raw) {
        Some(status) => status,
        None => ServingStatus::Unknown,
    }
}

/// The exit code of a status.
pub open spec fn status_code(status: ServingStatus) -> u8 {
    if status == ServingStatus::Serving {
        0
    } else {
        3
    }
}

/// Maps a serving status to a process exit code:
/// SERVING is healthy, anything else is a failure.
pub fn status_exit_code(status: ServingStatus) -> (r: u8)
    ensures
        r == status_code(status),
{
    match status {
        ServingStatus::Serving => 0,
        _ => 3,
    }
}

/// The exit code of a watch that last saw `last`.
pub open spec fn watch_code(last: Option<ServingStatus>) -> u8 {
    match last {
        Some(status) => status_code(status),
        None => 3,
    }
}

/// Exit code for a finished watch, based on the last status seen.
/// With no status observed at all (the stream closed or was interrupted before any update),
/// the server was never confirmed healthy, so this is a failure.
pub fn watch_exit_code(last: Option<ServingStatus>) -> (r: u8)
    ensures
        r == watch_code(last),
{
    match last {
        Some(status) => status_exit_code(status),
        None => 3,
    }
}

/// How bad an exit code is. A total outage (connection) outranks a hung call
/// (timeout), which outranks an invocation error, which outranks a valid
/// not-serving answer, which outranks success; a code without a meaning
/// outranks them all.
pub open spec fn rank(code: u8) -> u8 {
    if code == 0 {
        0
    } else if code == 3 {
        1
    } else if code == 2 {
        2
    } else if code == 4 {
        3
    } else if code == 1 {
        4
    } else {
        5
    }
}

/// Severity rank of an exit code for worst-of aggregation across services.
/// Higher wins.
pub fn severity(code: u8) -> (r: u8)
    ensures
        r == rank(code),
{
    match code {
        0 => 0,
        3 => 1,
        2 => 2,
        4 => 3,
        1 => 4,
        _ => 5,
    }
}

/// The most severe of several exit codes, the later of two that rank alike;
/// success where there is none.
pub open spec fn worst(codes: Seq<u8>) -> u8
    decreases codes.len(),
{
    if codes.len() == 0 {
        0
    } else {
        let before = worst(codes.drop_last());
        if rank(codes.last()) >= rank(before) {
            codes.last()
        } else {
            before
        }
    }
}

/// The exit code of the most severe outcome among several services.
/// Empty input is success.
pub fn worst_exit_code(codes: &[u8]) -> (r: u8)
    ensures
        r == worst(codes@),
{
    let mut r: u8 = 0;
    let mut i: usize = 0;
    while i < codes.len()
        invariant
            i <= codes.len(),
            r == worst(codes@.take(i as int)),
        decreases codes.len() - i,
    {
        proof {
            assert(codes@.take(i + 1).drop_last() == codes@.take(i as int));
        }
        if severity(codes[i]) >= severity(r) {
            r = codes[i];
        }
        i += 1;
    }
    proof {
        assert(codes@.take(codes@.len() as int) == codes@);
    }
    r
}

/// The worst exit code is one of the codes, and none of them outranks it.
pub proof fn law_worst_is_most_severe(codes: Seq<u8>)
    ensures
        codes.len() > 0 ==> codes.contains(worst(codes)),
        forall|i: int| 0 <= i < codes.len() ==> rank(#[trigger] codes[i]) <= rank(worst(codes)),
    decreases codes.len(),
{
    if codes.len() > 0 {
        let front = codes.drop_last();
        law_worst_is_most_severe(front);
        assert forall|i: int| 0 <= i < codes.len() implies rank(#[trigger] codes[i]) <= rank(
            worst(codes),
        ) by {
            if i < codes.len() - 1 {
                assert(front[i] == codes[i]);
            }
        }
        if worst(codes) == codes.last() {
            assert(codes[codes.len() - 1] == worst(codes));
        } else {
            assert(front.len() == 0 ==> worst(front) == 0);
            let i = choose|i: int| 0 <= i < front.len() && front[i] == worst(front);
            assert(codes[i] == worst(codes));
        }
    }
}

/// The worst exit code is success exactly when every code is.
pub proof fn law_success_needs_every_service(codes: Seq<u8>)
    ensures
        worst(codes) == 0 <==> (forall|i: int|
            0 <= i < codes.len() ==> #[trigger] codes[i] == 0),
{
    law_worst_is_most_severe(codes);
    if codes.len() > 0 && worst(codes) != 0 {
        let i = choose|i: int| 0 <= i < codes.len() && codes[i] == worst(codes);
        assert(codes[i] != 0);
    }
}

/// Checking services in two groups and taking the worse of the two results
/// gives the worst over all of them.
pub proof fn law_worst_of_groups(a: Seq<u8>, b: Seq<u8>)
    ensures
        worst(a + b) == worst(seq![worst(a), worst(b)]),
    decreases b.len(),
{
    let pair = seq![worst(a), worst(b)];
    assert(pair.drop_last() == seq![worst(a)]);
    assert(seq![worst(a)].drop_last() == Seq::<u8>::empty());
    assert(worst(Seq::<u8>::empty()) == 0);
    assert(worst(seq![worst(a)]) == worst(a));
    if b.len() == 0 {
        assert(a + b == a);
    } else {
        let front = b.drop_last();
        law_worst_of_groups(a, front);
        assert((a + b).drop_last() == a + front);
        assert((a + b).last() == b.last());
        let inner = seq![worst(a), worst(front)];
        assert(inner.drop_last() == seq![worst(a)]);
    }
}

/// The order in which services are checked does not change the worst of their
/// exit codes. Left out are lists with two different codes that have no
/// meaning: those rank alike, and the later one is taken.
pub proof fn law_worst_ignores_order(a: Seq<u8>, b: Seq<u8>)
    requires
        a.to_multiset() == b.to_multiset(),
        forall|i: int, j: int|
            0 <= i < a.len() && 0 <= j < a.len() && #[trigger] a[i] > 4 && #[trigger] a[j] > 4
                ==> a[i] == a[j],
    ensures
        worst(a) == worst(b),
{
    a.to_multiset_ensures();
    b.to_multiset_ensures();
    law_worst_is_most_severe(a);
    law_worst_is_most_severe(b);
    if a.len() > 0 {
        assert(b.to_multiset().count(worst(a)) > 0);
        assert(a.to_multiset().count(worst(b)) > 0);
        assert(b.contains(worst(a)));
        assert(a.contains(worst(b)));
        let i = choose|i: int| 0 <= i < a.len() && a[i] == worst(b);
        let j = choose|j: int| 0 <= j < b.len() && b[j] == worst(a);
        assert(rank(a[i]) <= rank(worst(a)));
        assert(rank(b[j]) <= rank(worst(b)));
        let k = choose|k: int| 0 <= k < a.len() && a[k] == worst(a);
        assert(a[i] > 4 && a[k] > 4 ==> a[i] == a[k]);
    } else {
        assert(b.len() == 0);
    }
}

/// The codes 1 to 3 of the protocol are SERVING, NOT_SERVING and
/// SERVICE_UNKNOWN, and nothing else is; every other code is UNKNOWN.
pub proof fn law_wire_codes(raw: i32)
    ensures
        decoded(raw) == ServingStatus::Serving <==> raw == 1,
        decoded(raw) == ServingStatus::NotServing <==> raw == 2,
        decoded(raw) == ServingStatus::ServiceUnknown <==> raw == 3,
        decoded(raw) == ServingStatus::Unknown <==> raw <= 0 || raw > 3,
{
}

/// Each status has its own name.
pub proof fn law_status_words(a: ServingStatus, b: ServingStatus)
    ensures
        status_word(ServingStatus::Unknown) == "UNKNOWN"@,
        status_word(ServingStatus::Serving) == "SERVING"@,
        status_word(ServingStatus::NotServing) == "NOT_SERVING"@,
        status_word(ServingStatus::ServiceUnknown) == "SERVICE_UNKNOWN"@,
        status_word(a) == status_word(b) ==> a == b,
{
    reveal_strlit("UNKNOWN");
    reveal_strlit("SERVING");
    reveal_strlit("NOT_SERVING");
    reveal_strlit("SERVICE_UNKNOWN");
    assert("UNKNOWN"@[0] != "SERVING"@[0]);
    if status_word(a) == status_word(b) {
        assert(status_word(a).len() == status_word(b).len());
        assert(status_word(a)[0] == status_word(b)[0]);
    }
}

/// Healthy is SERVING and nothing else: it exits with 0 and every other status
/// with 3. A watch exits by the status it saw last, and with 3 if it saw none.
pub proof fn law_status_codes(status: ServingStatus)
    ensures
        status == ServingStatus::Serving ==> status_code(status) == 0 && watch_code(Some(status))
            == 0,
        status != ServingStatus::Serving ==> status_code(status) == 3 && watch_code(Some(status))
            == 3,
        watch_code(None) == 3,
{
}

/// From the mildest to the gravest: success, not serving, an invocation error, a
/// timeout, a failed connection, and any code without a meaning.
pub proof fn law_severity_order(code: u8)
    ensures
        rank(0) == 0,
        rank(3) == 1,
        rank(2) == 2,
        rank(4) == 3,
        rank(1) == 4,
        code > 4 ==> rank(code) == 5,
{
}

/// Of several codes that rank highest the last one is the worst.
pub proof fn law_worst_is_the_last_of_its_rank(codes: Seq<u8>)
    requires
        codes.len() > 0,
    ensures
        exists|i: int|
            0 <= i < codes.len() && #[trigger] codes[i] == worst(codes) && (forall|j: int|
                i < j < codes.len() ==> rank(#[trigger] codes[j]) < rank(codes[i])),
    decreases codes.len(),
{
    let n = codes.len() - 1;
    let front = codes.drop_last();
    if worst(codes) == codes[n] && rank(codes[n]) >= rank(worst(front)) {
        assert(codes[n] == worst(codes));
    } else {
        assert(front.len() == 0 ==> worst(front) == 0);
        law_worst_is_the_last_of_its_rank(front);
        let i = choose|i: int|
            0 <= i < front.len() && #[trigger] front[i] == worst(front) && (forall|j: int|
                i < j < front.len() ==> rank(#[trigger] front[j]) < rank(front[i]));
        assert(codes[i] == worst(codes));
        assert forall|j: int| i < j < codes.len() implies rank(#[trigger] codes[j]) < rank(
            codes[i],
        ) by {
            if j < n {
                assert(codes[j] == front[j]);
            }
        }
    }
}

} // verus!
