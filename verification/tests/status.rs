use grpcknock::status::decode_status;
use grpcknock::status::severity;
use grpcknock::status::status_exit_code;
use grpcknock::status::watch_exit_code;
use grpcknock::status::worst_exit_code;
use grpcknock::status::ServingStatus;

#[test]
fn serving_status_exits_zero() {
    assert_eq!(status_exit_code(ServingStatus::Serving), 0);
}

#[test]
fn non_serving_status_exits_three() {
    assert_eq!(status_exit_code(ServingStatus::NotServing), 3);
    assert_eq!(status_exit_code(ServingStatus::Unknown), 3);
    assert_eq!(status_exit_code(ServingStatus::ServiceUnknown), 3);
}

#[test]
fn watch_exit_uses_last_observed_status() {
    assert_eq!(watch_exit_code(Some(ServingStatus::Serving)), 0);
    assert_eq!(watch_exit_code(Some(ServingStatus::NotServing)), 3);
}

#[test]
fn watch_exit_without_any_status_is_unhealthy() {
    assert_eq!(watch_exit_code(None), 3);
}

#[test]
fn worst_exit_code_picks_most_severe() {
    assert_eq!(worst_exit_code(&[]), 0);
    assert_eq!(worst_exit_code(&[0, 0]), 0);
    // A failure always beats SERVING.
    assert_eq!(worst_exit_code(&[0, 3]), 3);
    // Invocation error beats a valid not-serving answer.
    assert_eq!(worst_exit_code(&[3, 2]), 2);
    // Timeout beats an invocation error.
    assert_eq!(worst_exit_code(&[2, 4]), 4);
    // A total outage beats a timeout.
    assert_eq!(worst_exit_code(&[4, 1]), 1);
}

#[test]
fn worst_exit_code_ignores_order_and_grouping() {
    let codes = [0, 3, 2, 4, 1];
    for i in 0..codes.len() {
        for j in 0..codes.len() {
            let (a, b) = (codes[i], codes[j]);
            assert_eq!(worst_exit_code(&[a, b]), worst_exit_code(&[b, a]));
            for c in codes {
                assert_eq!(
                    worst_exit_code(&[a, b, c]),
                    worst_exit_code(&[worst_exit_code(&[a, b]), c])
                );
            }
        }
    }
}

#[test]
fn codes_without_a_meaning_are_the_worst() {
    assert_eq!(worst_exit_code(&[1, 7, 0]), 7);
    // Of two that rank alike the later one is taken.
    assert_eq!(worst_exit_code(&[5, 6]), 6);
    assert_eq!(worst_exit_code(&[6, 5]), 5);
}

#[test]
fn severity_ranks_are_exact() {
    assert_eq!(severity(0), 0);
    assert_eq!(severity(3), 1);
    assert_eq!(severity(2), 2);
    assert_eq!(severity(4), 3);
    assert_eq!(severity(1), 4);
    assert_eq!(severity(5), 5);
    assert_eq!(severity(255), 5);
}

#[test]
fn wire_codes_decode() {
    assert_eq!(decode_status(0), ServingStatus::Unknown);
    assert_eq!(decode_status(1), ServingStatus::Serving);
    assert_eq!(decode_status(2), ServingStatus::NotServing);
    assert_eq!(decode_status(3), ServingStatus::ServiceUnknown);
}

#[test]
fn wire_codes_out_of_range_are_unknown() {
    assert_eq!(decode_status(4), ServingStatus::Unknown);
    assert_eq!(decode_status(-1), ServingStatus::Unknown);
    assert_eq!(decode_status(i32::MAX), ServingStatus::Unknown);
    assert_eq!(decode_status(i32::MIN), ServingStatus::Unknown);
}
