//! Submission of a batch and resolution of its status, as a state machine.
//!
//! The gateway itself neither sends nor sleeps. It says what is to be done next
//! (`SubmissionAction`), is told what came of it (`SubmissionEvent`), and decides
//! how to go on. Whoever runs the machine posts the batch when told to send,
//! asks the validator for the status when told to poll, measures the seconds
//! since the batch was accepted, and stops when told the result.

use crate::batch::{batch_id_spec, encode_batch_list, BatchList, BatchListView};
use crate::config::text_of;
use crate::error::{GatewayError, GatewayErrorView};
use crate::status::{status_of_name, BatchStatus};
use vstd::prelude::*;

verus! {

/// The result of a submission that did not fail.
#[derive(Debug, PartialEq, Eq)]
pub struct SubmissionOutcome {
    /// The identity of the batch, for asking again later.
    pub batch_id: String,
    /// The status last seen: terminal after a wait, `Pending` without one.
    pub status: BatchStatus,
}

/// The mathematical content of a `SubmissionOutcome`.
pub ghost struct SubmissionOutcomeView {
    pub batch_id: Seq<char>,
    pub status: BatchStatus,
}

impl View for SubmissionOutcome {
    type V = SubmissionOutcomeView;

    open spec fn view(&self) -> SubmissionOutcomeView {
        SubmissionOutcomeView { batch_id: self.batch_id@, status: self.status }
    }
}

/// Where a submission stands.
#[derive(Debug, PartialEq, Eq)]
pub enum SubmissionState {
    /// The batch is to be sent, or is on its way; `wait` is the granted wait in
    /// seconds, `None` for no wait at all.
    Sending { batch_id: String, wait: Option<u32> },
    /// The validator accepted the batch and is being asked for its status;
    /// `limit` is the granted wait in seconds, `last` the status last seen.
    Polling { batch_id: String, limit: u32, last: BatchStatus },
    /// The result was handed out; nothing more happens.
    Finished,
}

/// The mathematical content of a `SubmissionState`.
pub ghost enum SubmissionStateView {
    Sending { batch_id: Seq<char>, wait: Option<u32> },
    Polling { batch_id: Seq<char>, limit: u32, last: BatchStatus },
    Finished,
}

impl View for SubmissionState {
    type V = SubmissionStateView;

    open spec fn view(&self) -> SubmissionStateView {
        match self {
            SubmissionState::Sending { batch_id, wait } => SubmissionStateView::Sending {
                batch_id: batch_id@,
                wait: *wait,
            },
            SubmissionState::Polling { batch_id, limit, last } => SubmissionStateView::Polling {
                batch_id: batch_id@,
                limit: *limit,
                last: *last,
            },
            SubmissionState::Finished => SubmissionStateView::Finished,
        }
    }
}

/// What came of the last action.
#[derive(Debug, PartialEq, Eq)]
pub enum SubmissionEvent {
    /// The validator took the batch.
    Accepted,
    /// The validator refused the batch; the text is the body of its answer.
    Rejected(String),
    /// The validator could not be reached; the text says how.
    Unreachable(String),
    /// The validator reported `status`, `elapsed` seconds after it took the batch.
    Observed { status: BatchStatus, elapsed: u32 },
}

/// The mathematical content of a `SubmissionEvent`.
pub ghost enum SubmissionEventView {
    Accepted,
    Rejected(Seq<char>),
    Unreachable(Seq<char>),
    Observed { status: BatchStatus, elapsed: u32 },
}

impl View for SubmissionEvent {
    type V = SubmissionEventView;

    open spec fn view(&self) -> SubmissionEventView {
        match self {
            SubmissionEvent::Accepted => SubmissionEventView::Accepted,
            SubmissionEvent::Rejected(body) => SubmissionEventView::Rejected(body@),
            SubmissionEvent::Unreachable(reason) => SubmissionEventView::Unreachable(reason@),
            SubmissionEvent::Observed { status, elapsed } => SubmissionEventView::Observed {
                status: *status,
                elapsed: *elapsed,
            },
        }
    }
}

/// What is to be done next.
#[derive(Debug, PartialEq, Eq)]
pub enum SubmissionAction {
    /// Post the batch to the validator, once.
    Send,
    /// Ask the validator for the status of the batch; `remaining` is what is
    /// left of the wait, in seconds.
    Poll { remaining: u32 },
    /// Hand out the result.
    Finish(Result<SubmissionOutcome, GatewayError>),
    /// Nothing: the submission is over, or the event answered no action.
    Halt,
}

/// The mathematical content of a `SubmissionAction`.
pub ghost enum SubmissionActionView {
    Send,
    Poll { remaining: u32 },
    Finish(Result<SubmissionOutcomeView, GatewayErrorView>),
    Halt,
}

impl View for SubmissionAction {
    type V = SubmissionActionView;

    open spec fn view(&self) -> SubmissionActionView {
        match self {
            SubmissionAction::Send => SubmissionActionView::Send,
            SubmissionAction::Poll { remaining } => SubmissionActionView::Poll {
                remaining: *remaining,
            },
            SubmissionAction::Finish(Ok(outcome)) => SubmissionActionView::Finish(Ok(outcome@)),
            SubmissionAction::Finish(Err(error)) => SubmissionActionView::Finish(Err(error@)),
            SubmissionAction::Halt => SubmissionActionView::Halt,
        }
    }
}

/// The result with which a submission ends well.
pub open spec fn done(batch_id: Seq<char>, status: BatchStatus) -> (
    SubmissionStateView,
    SubmissionActionView,
) {
    (
        SubmissionStateView::Finished,
        SubmissionActionView::Finish(Ok(SubmissionOutcomeView { batch_id, status })),
    )
}

/// The result with which a submission fails.
pub open spec fn failed(error: GatewayErrorView) -> (SubmissionStateView, SubmissionActionView) {
    (SubmissionStateView::Finished, SubmissionActionView::Finish(Err(error)))
}

/// The state after `event`, and what is to be done next.
///
/// While sending: a refusal and a failure to reach the validator end the
/// submission with their error; on acceptance a submission without wait ends at
/// once with `Pending`, one with a wait of no seconds ends as timed out, and any
/// other goes on to poll. While polling: a terminal status ends the submission
/// with that status; any other status ends it as timed out once the seconds
/// since acceptance have reached the wait, and is polled again before that.
/// An event that answers no action, and any event after the end, changes
/// nothing more.
pub open spec fn next(state: SubmissionStateView, event: SubmissionEventView) -> (
    SubmissionStateView,
    SubmissionActionView,
) {
    match state {
        SubmissionStateView::Sending { batch_id, wait } => match event {
            SubmissionEventView::Accepted => match wait {
                None => done(batch_id, BatchStatus::Pending),
                Some(seconds) => if seconds == 0 {
                    failed(GatewayErrorView::TimeoutError(BatchStatus::Pending))
                } else {
                    (
                        SubmissionStateView::Polling {
                            batch_id,
                            limit: seconds,
                            last: BatchStatus::Pending,
                        },
                        SubmissionActionView::Poll { remaining: seconds },
                    )
                },
            },
            SubmissionEventView::Rejected(body) => failed(
                GatewayErrorView::ValidatorRejectionError(body),
            ),
            SubmissionEventView::Unreachable(reason) => failed(
                GatewayErrorView::TransportError(reason),
            ),
            SubmissionEventView::Observed { .. } => (
                SubmissionStateView::Finished,
                SubmissionActionView::Halt,
            ),
        },
        SubmissionStateView::Polling { batch_id, limit, last } => match event {
            SubmissionEventView::Observed { status, elapsed } => if status.is_terminal() {
                done(batch_id, status)
            } else if elapsed >= limit {
                failed(GatewayErrorView::TimeoutError(status))
            } else {
                (
                    SubmissionStateView::Polling { batch_id, limit, last: status },
                    SubmissionActionView::Poll { remaining: (limit - elapsed) as u32 },
                )
            },
            SubmissionEventView::Unreachable(reason) => failed(
                GatewayErrorView::TransportError(reason),
            ),
            _ => (SubmissionStateView::Finished, SubmissionActionView::Halt),
        },
        SubmissionStateView::Finished => (
            SubmissionStateView::Finished,
            SubmissionActionView::Halt,
        ),
    }
}

/// The state after each of `events` in turn, and the action that the last of
/// them led to; `Send` where there is no event.
pub open spec fn run(state: SubmissionStateView, events: Seq<SubmissionEventView>) -> (
    SubmissionStateView,
    SubmissionActionView,
)
    decreases events.len(),
{
    if events.len() == 0 {
        (state, SubmissionActionView::Send)
    } else {
        next(run(state, events.drop_last()).0, events.last())
    }
}

/// A submission without wait never polls: whatever happens, it is never told to
/// poll and never comes to the polling state.
pub proof fn lemma_no_wait_never_polls(batch_id: Seq<char>, events: Seq<SubmissionEventView>)
    ensures
        !(run(SubmissionStateView::Sending { batch_id, wait: None }, events).0 is Polling),
        !(run(SubmissionStateView::Sending { batch_id, wait: None }, events).1 is Poll),
        events.len() > 0 && events[0] is Accepted ==> run(
            SubmissionStateView::Sending { batch_id, wait: None },
            events.take(1),
        ) == done(batch_id, BatchStatus::Pending),
    decreases events.len(),
{
    let start = SubmissionStateView::Sending { batch_id, wait: None };
    if events.len() > 0 {
        lemma_no_wait_never_polls(batch_id, events.drop_last());
        let first = events.take(1);
        assert(run(start, first.drop_last()).0 == start);
    }
}

/// Terminal states are final. While polling, a terminal status ends the
/// submission with exactly that status; once a submission has ended, no event
/// changes it or asks for anything.
pub proof fn lemma_terminal_is_final(
    batch_id: Seq<char>,
    limit: u32,
    last: BatchStatus,
    status: BatchStatus,
    elapsed: u32,
    later: SubmissionEventView,
)
    requires
        status.is_terminal(),
    ensures
        next(
            SubmissionStateView::Polling { batch_id, limit, last },
            SubmissionEventView::Observed { status, elapsed },
        ) == done(batch_id, status),
        next(SubmissionStateView::Finished, later) == (
            SubmissionStateView::Finished,
            SubmissionActionView::Halt,
        ),
{
}

/// A submission that is told to poll has some of its wait left, and never more
/// than the wait; one that times out reports a status that is not terminal.
pub proof fn lemma_polling_is_bounded(state: SubmissionStateView, event: SubmissionEventView)
    ensures
        next(state, event).1 matches SubmissionActionView::Poll { remaining } ==> (next(
            state,
            event,
        ).0 matches SubmissionStateView::Polling { limit, .. } && 0 < remaining <= limit),
        next(state, event).1 matches SubmissionActionView::Finish(
            Err(GatewayErrorView::TimeoutError(status)),
        ) ==> !status.is_terminal(),
        next(state, event).1 matches SubmissionActionView::Finish(Ok(outcome)) ==> (
        outcome.status.is_terminal() || (state matches SubmissionStateView::Sending {
            wait: None,
            ..
        } && outcome.status == BatchStatus::Pending)),
{
}

impl SubmissionState {
    /// Begins the submission of the batch `batch_id` with the granted `wait`:
    /// the first thing to do is to send it.
    pub fn start(batch_id: String, wait: Option<u32>) -> (res: (SubmissionState, SubmissionAction))
        ensures
            res.0@ == (SubmissionStateView::Sending { batch_id: batch_id@, wait }),
            res.1@ == SubmissionActionView::Send,
    {
        (SubmissionState::Sending { batch_id, wait }, SubmissionAction::Send)
    }

    /// Takes in what came of the last action: the state after it, and what is
    /// to be done next.
    pub fn step(self, event: SubmissionEvent) -> (res: (SubmissionState, SubmissionAction))
        ensures
            (res.0@, res.1@) == next(self@, event@),
    {
        match self {
            SubmissionState::Sending { batch_id, wait } => match event {
                SubmissionEvent::Accepted => match wait {
                    None => (
                        SubmissionState::Finished,
                        SubmissionAction::Finish(
                            Ok(SubmissionOutcome { batch_id, status: BatchStatus::Pending }),
                        ),
                    ),
                    Some(seconds) => {
                        if seconds == 0 {
                            (
                                SubmissionState::Finished,
                                SubmissionAction::Finish(
                                    Err(GatewayError::TimeoutError(BatchStatus::Pending)),
                                ),
                            )
                        } else {
                            (
                                SubmissionState::Polling {
                                    batch_id,
                                    limit: seconds,
                                    last: BatchStatus::Pending,
                                },
                                SubmissionAction::Poll { remaining: seconds },
                            )
                        }
                    },
                },
                SubmissionEvent::Rejected(body) => (
                    SubmissionState::Finished,
                    SubmissionAction::Finish(Err(GatewayError::ValidatorRejectionError(body))),
                ),
                SubmissionEvent::Unreachable(reason) => (
                    SubmissionState::Finished,
                    SubmissionAction::Finish(Err(GatewayError::TransportError(reason))),
                ),
                SubmissionEvent::Observed { .. } => (
                    SubmissionState::Finished,
                    SubmissionAction::Halt,
                ),
            },
            SubmissionState::Polling { batch_id, limit, last } => match event {
                SubmissionEvent::Observed { status, elapsed } => {
                    if status.terminal() {
                        (
                            SubmissionState::Finished,
                            SubmissionAction::Finish(Ok(SubmissionOutcome { batch_id, status })),
                        )
                    } else if elapsed >= limit {
                        (
                            SubmissionState::Finished,
                            SubmissionAction::Finish(Err(GatewayError::TimeoutError(status))),
                        )
                    } else {
                        (
                            SubmissionState::Polling { batch_id, limit, last: status },
                            SubmissionAction::Poll { remaining: limit - elapsed },
                        )
                    }
                },
                SubmissionEvent::Unreachable(reason) => (
                    SubmissionState::Finished,
                    SubmissionAction::Finish(Err(GatewayError::TransportError(reason))),
                ),
                _ => (SubmissionState::Finished, SubmissionAction::Halt),
            },
            SubmissionState::Finished => (SubmissionState::Finished, SubmissionAction::Halt),
        }
    }
}

/// What is ready to be handed to the validator.
#[derive(Debug, PartialEq, Eq)]
pub struct PreparedSubmission {
    /// The batches to submit.
    pub batch_list: BatchList,
    /// The identity of the batch, by which its status is asked for.
    pub batch_id: String,
    /// The validator to submit to.
    pub url: String,
    /// The partition of the service, if any.
    pub service_id: Option<String>,
    /// The granted wait in seconds; `None` for no wait at all.
    pub wait: Option<u32>,
}

/// The mathematical content of a `PreparedSubmission`.
pub ghost struct PreparedSubmissionView {
    pub batch_list: BatchListView,
    pub batch_id: Seq<char>,
    pub url: Seq<char>,
    pub service_id: Option<Seq<char>>,
    pub wait: Option<u32>,
}

impl View for PreparedSubmission {
    type V = PreparedSubmissionView;

    open spec fn view(&self) -> PreparedSubmissionView {
        PreparedSubmissionView {
            batch_list: self.batch_list@,
            batch_id: self.batch_id@,
            url: self.url@,
            service_id: text_of(self.service_id),
            wait: self.wait,
        }
    }
}

/// The event that an answer of the validator to the post of a batch is: the
/// batch is accepted where the status code of the answer is one of success,
/// and refused with the body of the answer in every other case.
pub open spec fn answer_event(status_code: u16, body: Seq<char>) -> SubmissionEventView {
    if 200 <= status_code < 300 {
        SubmissionEventView::Accepted
    } else {
        SubmissionEventView::Rejected(body)
    }
}

/// The state in which the submission of what was prepared begins.
pub open spec fn begun(prepared: PreparedSubmissionView) -> SubmissionStateView {
    SubmissionStateView::Sending { batch_id: prepared.batch_id, wait: prepared.wait }
}

/// A batch that the validator refuses is a validator rejection that keeps the
/// body of the refusal, whatever wait was granted; nothing is sent again.
pub proof fn lemma_refusal_keeps_the_body(
    prepared: PreparedSubmissionView,
    status_code: u16,
    body: Seq<char>,
)
    requires
        !(200 <= status_code < 300),
    ensures
        next(begun(prepared), answer_event(status_code, body)) == failed(
            GatewayErrorView::ValidatorRejectionError(body),
        ),
{
}

/// A validator that cannot be reached, at the post or at any request for the
/// status, is a transport error that keeps the reason; nothing is tried again.
pub proof fn lemma_unreachable_is_transport_error(
    batch_id: Seq<char>,
    wait: Option<u32>,
    limit: u32,
    last: BatchStatus,
    reason: Seq<char>,
)
    ensures
        next(
            SubmissionStateView::Sending { batch_id, wait },
            SubmissionEventView::Unreachable(reason),
        ) == failed(GatewayErrorView::TransportError(reason)),
        next(
            SubmissionStateView::Polling { batch_id, limit, last },
            SubmissionEventView::Unreachable(reason),
        ) == failed(GatewayErrorView::TransportError(reason)),
{
}

/// An accepted batch for which no wait was granted is answered at once with
/// `Pending`.
pub proof fn lemma_accepted_without_wait(prepared: PreparedSubmissionView, status_code: u16)
    requires
        200 <= status_code < 300,
        prepared.wait is None,
    ensures
        forall|body: Seq<char>|
            #[trigger] next(begun(prepared), answer_event(status_code, body)) == done(
                prepared.batch_id,
                BatchStatus::Pending,
            ),
{
}

impl SubmissionEvent {
    /// Reads the answer of the validator to the post of a batch.
    pub fn of_answer(status_code: u16, body: String) -> (event: SubmissionEvent)
        ensures
            event@ == answer_event(status_code, body@),
    {
        if 200 <= status_code && status_code < 300 {
            SubmissionEvent::Accepted
        } else {
            SubmissionEvent::Rejected(body)
        }
    }

    /// The event of a status that the validator reported by its name, `elapsed`
    /// seconds after it took the batch.
    pub fn of_status(name: &str, elapsed: u32) -> (event: SubmissionEvent)
        ensures
            event@ == (SubmissionEventView::Observed { status: status_of_name(name@), elapsed }),
    {
        SubmissionEvent::Observed { status: BatchStatus::from_name(name), elapsed }
    }
}

impl PreparedSubmission {
    /// Puts together what is to be submitted; `None` for a list without batch,
    /// which has no identity to ask for.
    pub fn new(
        batch_list: BatchList,
        url: String,
        service_id: Option<String>,
        wait: Option<u32>,
    ) -> (res: Option<PreparedSubmission>)
        ensures
            batch_list@.batches.len() == 0 ==> res is None,
            batch_list@.batches.len() > 0 ==> (res matches Some(prepared) && prepared@ == (
            PreparedSubmissionView {
                batch_list: batch_list@,
                batch_id: batch_id_spec(batch_list@.batches[0].header),
                url: url@,
                service_id: text_of(service_id),
                wait,
            })),
    {
        match batch_list.first_id() {
            Some(batch_id) => Some(
                PreparedSubmission { batch_list, batch_id, url, service_id, wait },
            ),
            None => None,
        }
    }

    /// The wire message to post.
    pub fn wire_bytes(&self) -> (bytes: Vec<u8>)
        ensures
            bytes@ == encode_batch_list(self@.batch_list),
    {
        self.batch_list.to_bytes()
    }

    /// Begins the submission: the first thing to do is to post the wire
    /// message, once.
    pub fn start(&self) -> (res: (SubmissionState, SubmissionAction))
        ensures
            res.0@ == begun(self@),
            res.1@ == SubmissionActionView::Send,
    {
        SubmissionState::start(self.batch_id.clone(), self.wait)
    }

    /// Takes in the answer of the validator to the post: the state after it,
    /// and what is to be done next.
    pub fn answered(&self, status_code: u16, body: String) -> (res: (
        SubmissionState,
        SubmissionAction,
    ))
        ensures
            (res.0@, res.1@) == next(begun(self@), answer_event(status_code, body@)),
    {
        let (state, _) = self.start();
        state.step(SubmissionEvent::of_answer(status_code, body))
    }

    /// Takes in that the validator could not be reached for the post: the
    /// submission ends with a transport error that keeps the reason.
    pub fn unreachable(&self, reason: String) -> (res: (SubmissionState, SubmissionAction))
        ensures
            (res.0@, res.1@) == failed(GatewayErrorView::TransportError(reason@)),
    {
        let (state, _) = self.start();
        state.step(SubmissionEvent::Unreachable(reason))
    }
}

} // verus!
