use ledger_gateway::error::GatewayError;
use ledger_gateway::status::BatchStatus;
use ledger_gateway::submit::{
    SubmissionAction, SubmissionEvent, SubmissionOutcome, SubmissionState,
};
use ledger_gateway::wait::{
    bad_wait, clamp_wait, is_no_wait, max_wait_time, read_seconds, resolve_wait, seconds_text,
    DEFAULT_TIME_OUT,
};

fn bad(text: &str) -> GatewayError {
    GatewayError::BadRequestError(format!(
        "Query wait has invalid value {}. It should set to false or a time in seconds to wait for the commit",
        text
    ))
}

/// Runs a submission against a validator that accepts the batch and reports
/// `statuses[t - 1]` at second `t` (the last of them from then on). Returns the
/// result, the second at which it came, and the number of polls.
fn drive(
    wait: Option<u32>,
    statuses: &[BatchStatus],
) -> (Result<SubmissionOutcome, GatewayError>, u32, u32) {
    let (mut state, mut action) = SubmissionState::start("batch-1".to_string(), wait);
    let mut clock = 0u32;
    let mut polls = 0u32;
    loop {
        let event = match action {
            SubmissionAction::Send => SubmissionEvent::Accepted,
            SubmissionAction::Poll { remaining } => {
                assert!(remaining > 0);
                polls += 1;
                clock += 1;
                let seen = statuses[(clock as usize - 1).min(statuses.len() - 1)];
                SubmissionEvent::Observed { status: seen, elapsed: clock }
            }
            SubmissionAction::Finish(result) => {
                assert_eq!(state, SubmissionState::Finished);
                return (result, clock, polls);
            }
            SubmissionAction::Halt => panic!("halted without a result"),
        };
        let (next_state, next_action) = state.step(event);
        state = next_state;
        action = next_action;
    }
}

fn pending(id: &str) -> SubmissionOutcome {
    SubmissionOutcome { batch_id: id.to_string(), status: BatchStatus::Pending }
}

#[test]
fn ceiling_is_95_percent_rounded_down() {
    assert_eq!(DEFAULT_TIME_OUT, 300);
    assert_eq!(max_wait_time(300), 285);
    assert_eq!(max_wait_time(100), 95);
    assert_eq!(max_wait_time(0), 0);
    assert_eq!(max_wait_time(1), 0);
    assert_eq!(max_wait_time(21), 19);
    assert_eq!(max_wait_time(u32::MAX), 4080218930);
}

#[test]
fn wait_above_the_ceiling_is_the_ceiling() {
    assert_eq!(clamp_wait(286, 300), 285);
    assert_eq!(clamp_wait(300, 300), 285);
    assert_eq!(clamp_wait(u32::MAX, 300), 285);
    assert_eq!(resolve_wait(Some("286"), 300), Ok(Some(285)));
    assert_eq!(resolve_wait(Some("4294967295"), 300), Ok(Some(285)));
    assert_eq!(resolve_wait(Some("4294967296"), 300), Ok(Some(285)));
    assert_eq!(resolve_wait(Some("+4294967296"), 300), Ok(Some(285)));
    assert_eq!(resolve_wait(Some("99999999999999999999"), 300), Ok(Some(285)));
    assert_eq!(resolve_wait(Some("18446744073709551616"), 300), Ok(Some(285)));
    let huge = "9".repeat(5000);
    assert_eq!(resolve_wait(Some(&huge), 300), Ok(Some(285)));
    assert_eq!(resolve_wait(Some(&huge), u32::MAX), Ok(Some(4080218930)));
    assert_eq!(resolve_wait(Some(&huge), 0), Ok(Some(0)));
}

#[test]
fn wait_within_the_ceiling_is_unchanged() {
    assert_eq!(clamp_wait(285, 300), 285);
    assert_eq!(clamp_wait(284, 300), 284);
    assert_eq!(clamp_wait(10, 300), 10);
    assert_eq!(clamp_wait(0, 300), 0);
    assert_eq!(resolve_wait(Some("285"), 300), Ok(Some(285)));
    assert_eq!(resolve_wait(Some("10"), 300), Ok(Some(10)));
    assert_eq!(resolve_wait(Some("0"), 300), Ok(Some(0)));
}

#[test]
fn unparsable_wait_is_a_bad_request() {
    let long = format!("{}x", "9".repeat(40));
    for text in
        ["abc", "", "-1", "1.5", "10s", " 10", "10 ", "+", "+-1", "१०", "true", "False", long.as_str()]
    {
        assert_eq!(resolve_wait(Some(text), 300), Err(bad(text)));
    }
    assert_eq!(bad_wait("x"), bad("x"));
}

#[test]
fn missing_wait_is_the_ceiling() {
    assert_eq!(resolve_wait(None, 300), Ok(Some(285)));
    assert_eq!(resolve_wait(None, 0), Ok(Some(0)));
}

#[test]
fn the_word_false_is_no_wait() {
    assert!(is_no_wait("false"));
    assert!(!is_no_wait("False"));
    assert!(!is_no_wait("false "));
    assert!(!is_no_wait(""));
    assert_eq!(resolve_wait(Some("false"), 300), Ok(None));
}

#[test]
fn seconds_are_decimal_digits_with_an_optional_plus() {
    assert_eq!(read_seconds("0"), Some(0));
    assert_eq!(read_seconds("007"), Some(7));
    assert_eq!(read_seconds("+5"), Some(5));
    assert_eq!(read_seconds("4294967295"), Some(u32::MAX));
    assert_eq!(read_seconds("00000000004294967295"), Some(u32::MAX));
    assert_eq!(read_seconds("++5"), None);
    assert_eq!(read_seconds("5+"), None);
    assert_eq!(read_seconds(""), None);
    assert_eq!(read_seconds("+"), None);
    for n in [0u32, 1, 9, 10, 99, 100, 12345, 4294967295] {
        assert_eq!(read_seconds(&n.to_string()), Some(n));
    }
    for text in ["+0", "-0", "-", "1_000", "0x10", "١", "12a", "a12"] {
        assert_eq!(read_seconds(text), text.parse::<u32>().ok());
    }
}

#[test]
fn seconds_too_large_for_32_bits_are_still_a_number() {
    assert_eq!(read_seconds("4294967296"), Some(u32::MAX));
    assert_eq!(read_seconds("4294967300"), Some(u32::MAX));
    assert_eq!(read_seconds("42949672950"), Some(u32::MAX));
    assert_eq!(read_seconds("18446744073709551615"), Some(u32::MAX));
    assert_eq!(read_seconds("18446744073709551616"), Some(u32::MAX));
    assert_eq!(read_seconds(&"1".repeat(1000)), Some(u32::MAX));
    assert_eq!(read_seconds(&format!("{}x", "1".repeat(1000))), None);
    assert_eq!(read_seconds(&format!("0000{}", u64::MAX)), Some(u32::MAX));
}

#[test]
fn seconds_are_written_without_leading_zeros() {
    for n in [0u32, 1, 9, 10, 11, 99, 100, 101, 285, 1000, 65535, 4294967295] {
        assert_eq!(seconds_text(n), n.to_string());
        assert_eq!(read_seconds(&seconds_text(n)), Some(n));
    }
}

#[test]
fn do_not_wait_returns_pending_without_polling() {
    let wait = resolve_wait(Some("false"), 300).unwrap();
    assert_eq!(wait, None);
    let (result, at, polls) = drive(wait, &[BatchStatus::Committed]);
    assert_eq!(result, Ok(pending("batch-1")));
    assert_eq!(at, 0);
    assert_eq!(polls, 0);
}

#[test]
fn committed_after_two_seconds_returns_at_two_seconds() {
    let wait = resolve_wait(Some("10"), 300).unwrap();
    let (result, at, polls) =
        drive(wait, &[BatchStatus::Pending, BatchStatus::Committed]);
    assert_eq!(
        result,
        Ok(SubmissionOutcome { batch_id: "batch-1".to_string(), status: BatchStatus::Committed })
    );
    assert_eq!(at, 2);
    assert_eq!(polls, 2);
}

#[test]
fn never_leaving_pending_times_out_at_the_wait() {
    let wait = resolve_wait(Some("10"), 300).unwrap();
    let (result, at, polls) = drive(wait, &[BatchStatus::Pending]);
    assert_eq!(result, Err(GatewayError::TimeoutError(BatchStatus::Pending)));
    assert_eq!(at, 10);
    assert_eq!(polls, 10);
}

#[test]
fn timeout_comes_at_the_ceiling_if_that_is_lower() {
    let wait = resolve_wait(Some("10"), 8).unwrap();
    assert_eq!(wait, Some(7));
    let (result, at, _) = drive(wait, &[BatchStatus::Unknown]);
    assert_eq!(result, Err(GatewayError::TimeoutError(BatchStatus::Unknown)));
    assert_eq!(at, 7);
}

#[test]
fn invalid_batch_ends_the_wait() {
    let (result, at, _) = drive(
        Some(10),
        &[BatchStatus::Unknown, BatchStatus::Pending, BatchStatus::Invalid, BatchStatus::Committed],
    );
    assert_eq!(
        result,
        Ok(SubmissionOutcome { batch_id: "batch-1".to_string(), status: BatchStatus::Invalid })
    );
    assert_eq!(at, 3);
}

#[test]
fn terminal_status_at_the_deadline_still_counts() {
    let (result, at, _) = drive(Some(2), &[BatchStatus::Pending, BatchStatus::Committed]);
    assert_eq!(
        result,
        Ok(SubmissionOutcome { batch_id: "batch-1".to_string(), status: BatchStatus::Committed })
    );
    assert_eq!(at, 2);
}

#[test]
fn wait_of_no_seconds_times_out_at_once() {
    let (result, at, polls) = drive(Some(0), &[BatchStatus::Committed]);
    assert_eq!(result, Err(GatewayError::TimeoutError(BatchStatus::Pending)));
    assert_eq!((at, polls), (0, 0));
}

#[test]
fn rejection_keeps_the_body_and_is_not_retried() {
    let (state, action) = SubmissionState::start("b".to_string(), Some(10));
    assert_eq!(action, SubmissionAction::Send);
    let (state, action) = state.step(SubmissionEvent::Rejected("{\"error\": 30}".to_string()));
    assert_eq!(state, SubmissionState::Finished);
    assert_eq!(
        action,
        SubmissionAction::Finish(Err(GatewayError::ValidatorRejectionError(
            "{\"error\": 30}".to_string()
        )))
    );
    let (state, action) = state.step(SubmissionEvent::Accepted);
    assert_eq!((state, action), (SubmissionState::Finished, SubmissionAction::Halt));
}

#[test]
fn unreachable_validator_is_a_transport_error() {
    let (state, _) = SubmissionState::start("b".to_string(), None);
    let (_, action) = state.step(SubmissionEvent::Unreachable("refused".to_string()));
    assert_eq!(
        action,
        SubmissionAction::Finish(Err(GatewayError::TransportError("refused".to_string())))
    );
    let (state, _) = SubmissionState::start("b".to_string(), Some(5));
    let (state, action) = state.step(SubmissionEvent::Accepted);
    assert_eq!(action, SubmissionAction::Poll { remaining: 5 });
    assert_eq!(
        state,
        SubmissionState::Polling { batch_id: "b".to_string(), limit: 5, last: BatchStatus::Pending }
    );
    let (state, action) = state.step(SubmissionEvent::Unreachable("reset".to_string()));
    assert_eq!(state, SubmissionState::Finished);
    assert_eq!(
        action,
        SubmissionAction::Finish(Err(GatewayError::TransportError("reset".to_string())))
    );
}

#[test]
fn polling_tells_what_is_left_of_the_wait() {
    let (state, _) = SubmissionState::start("b".to_string(), Some(10));
    let (state, _) = state.step(SubmissionEvent::Accepted);
    let (state, action) =
        state.step(SubmissionEvent::Observed { status: BatchStatus::Unknown, elapsed: 3 });
    assert_eq!(action, SubmissionAction::Poll { remaining: 7 });
    assert_eq!(
        state,
        SubmissionState::Polling { batch_id: "b".to_string(), limit: 10, last: BatchStatus::Unknown }
    );
    let (state, action) =
        state.step(SubmissionEvent::Observed { status: BatchStatus::Pending, elapsed: 9 });
    assert_eq!(action, SubmissionAction::Poll { remaining: 1 });
    let (_, action) =
        state.step(SubmissionEvent::Observed { status: BatchStatus::Pending, elapsed: 11 });
    assert_eq!(action, SubmissionAction::Finish(Err(GatewayError::TimeoutError(BatchStatus::Pending))));
}

#[test]
fn events_that_answer_no_action_end_the_submission() {
    let (state, _) = SubmissionState::start("b".to_string(), Some(10));
    let observed = SubmissionEvent::Observed { status: BatchStatus::Committed, elapsed: 0 };
    assert_eq!(state.step(observed), (SubmissionState::Finished, SubmissionAction::Halt));
    let (state, _) = SubmissionState::start("b".to_string(), Some(10));
    let (state, _) = state.step(SubmissionEvent::Accepted);
    assert_eq!(
        state.step(SubmissionEvent::Accepted),
        (SubmissionState::Finished, SubmissionAction::Halt)
    );
}

#[test]
fn finished_submission_stays_finished() {
    let events = vec![
        SubmissionEvent::Accepted,
        SubmissionEvent::Rejected("x".to_string()),
        SubmissionEvent::Unreachable("y".to_string()),
        SubmissionEvent::Observed { status: BatchStatus::Pending, elapsed: 1 },
        SubmissionEvent::Observed { status: BatchStatus::Committed, elapsed: 1 },
    ];
    for event in events {
        assert_eq!(
            SubmissionState::Finished.step(event),
            (SubmissionState::Finished, SubmissionAction::Halt)
        );
    }
}

#[test]
fn terminal_statuses() {
    assert!(BatchStatus::Committed.terminal());
    assert!(BatchStatus::Invalid.terminal());
    assert!(!BatchStatus::Pending.terminal());
    assert!(!BatchStatus::Unknown.terminal());
}
