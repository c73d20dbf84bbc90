//! The long-running operation poller, as a state machine. It decides; it
//! sends nothing and never sleeps. The caller performs the action that the
//! machine asks for and hands back what came of it as an event.

use crate::error::{GemsError, GemsErrorView};
use crate::operation::{
    status_of, status_view, OperationHandle, OperationStatus, OperationStatusView, PollPolicy,
    PollResponse,
};
use crate::text::text_view;
use vstd::prelude::*;

verus! {

/// What the submission of a job came to.
#[derive(Debug, Clone, PartialEq, Eq)]
pub enum SubmitOutcome {
    /// The status was a success; `name` is the operation name of the answer,
    /// where it holds one.
    Accepted { name: Option<String> },
    /// The status was a failure. `envelope` is the message of the error
    /// envelope, where the body could be read as one; `body` is the body as
    /// it came.
    Rejected { envelope: Option<String>, body: String },
}

/// The mathematical value of a `SubmitOutcome`.
pub enum SubmitOutcomeView {
    Accepted { name: Option<Seq<char>> },
    Rejected { envelope: Option<Seq<char>>, body: Seq<char> },
}

impl View for SubmitOutcome {
    type V = SubmitOutcomeView;

    open spec fn view(&self) -> SubmitOutcomeView {
        match self {
            SubmitOutcome::Accepted { name } => SubmitOutcomeView::Accepted {
                name: text_view(*name),
            },
            SubmitOutcome::Rejected { envelope, body } => SubmitOutcomeView::Rejected {
                envelope: text_view(*envelope),
                body: body@,
            },
        }
    }
}

/// What came of the action that the poller asked for.
#[derive(Debug, Clone, PartialEq, Eq)]
pub enum PollerEvent {
    /// The submission was answered.
    Submitted(SubmitOutcome),
    /// A poll was answered with this status.
    Polled(OperationStatus),
    /// The interval has passed.
    Slept,
    /// The action failed for good: the transport broke, or an answer could
    /// not be decoded.
    Aborted(GemsError),
}

/// The mathematical value of a `PollerEvent`.
pub enum PollerEventView {
    Submitted(SubmitOutcomeView),
    Polled(OperationStatusView),
    Slept,
    Aborted(GemsErrorView),
}

impl View for PollerEvent {
    type V = PollerEventView;

    open spec fn view(&self) -> PollerEventView {
        match self {
            PollerEvent::Submitted(outcome) => PollerEventView::Submitted(outcome@),
            PollerEvent::Polled(status) => PollerEventView::Polled(status@),
            PollerEvent::Slept => PollerEventView::Slept,
            PollerEvent::Aborted(error) => PollerEventView::Aborted(error@),
        }
    }
}

/// Where the poller stands.
#[derive(Debug, Clone, PartialEq, Eq)]
pub enum PollerState {
    /// The job is being submitted.
    Submitting,
    /// A poll is under way; `attempts` polls were answered before it.
    Polling { handle: OperationHandle, attempts: u32 },
    /// The interval after the `attempts`-th poll is passing.
    Waiting { handle: OperationHandle, attempts: u32 },
    /// The operation is done; these are its bytes.
    Succeeded(Vec<u8>),
    /// The call has failed.
    Failed(GemsError),
    /// The operation was still pending after the last poll allowed.
    TimedOut,
}

/// The mathematical value of a `PollerState`.
pub enum PollerStateView {
    Submitting,
    Polling { handle: Seq<char>, attempts: u32 },
    Waiting { handle: Seq<char>, attempts: u32 },
    Succeeded(Seq<u8>),
    Failed(GemsErrorView),
    TimedOut,
}

impl View for PollerState {
    type V = PollerStateView;

    open spec fn view(&self) -> PollerStateView {
        match self {
            PollerState::Submitting => PollerStateView::Submitting,
            PollerState::Polling { handle, attempts } => PollerStateView::Polling {
                handle: handle@,
                attempts: *attempts,
            },
            PollerState::Waiting { handle, attempts } => PollerStateView::Waiting {
                handle: handle@,
                attempts: *attempts,
            },
            PollerState::Succeeded(bytes) => PollerStateView::Succeeded(bytes@),
            PollerState::Failed(error) => PollerStateView::Failed(error@),
            PollerState::TimedOut => PollerStateView::TimedOut,
        }
    }
}

/// What the poller asks its caller to do next.
#[derive(Debug, Clone, PartialEq, Eq)]
pub enum PollerAction {
    /// Send the submission.
    Submit,
    /// Ask for the status of the operation with this name.
    Poll(String),
    /// Let this many milliseconds pass.
    Sleep(u64),
    /// Nothing more: the state is terminal.
    Stop,
}

/// The mathematical value of a `PollerAction`.
pub enum PollerActionView {
    Submit,
    Poll(Seq<char>),
    Sleep(u64),
    Stop,
}

impl View for PollerAction {
    type V = PollerActionView;

    open spec fn view(&self) -> PollerActionView {
        match self {
            PollerAction::Submit => PollerActionView::Submit,
            PollerAction::Poll(name) => PollerActionView::Poll(name@),
            PollerAction::Sleep(ms) => PollerActionView::Sleep(*ms),
            PollerAction::Stop => PollerActionView::Stop,
        }
    }
}

impl PollerEvent {
    /// The event that the answer to a poll stands for: its status, or the
    /// end of the call where its payload cannot be decoded or it is done
    /// with nothing to show.
    pub open spec fn of_status(
        status: Result<OperationStatusView, GemsErrorView>,
    ) -> PollerEventView {
        match status {
            Ok(value) => PollerEventView::Polled(value),
            Err(error) => PollerEventView::Aborted(error),
        }
    }

    /// The event that a status, or the error in its place, stands for.
    pub fn from_status(status: Result<OperationStatus, GemsError>) -> (event: Self)
        ensures
            event@ == PollerEvent::of_status(status_view(status)),
    {
        match status {
            Ok(value) => PollerEvent::Polled(value),
            Err(error) => PollerEvent::Aborted(error),
        }
    }

    /// The event that the answer to a poll stands for.
    pub fn from_poll(response: PollResponse) -> (event: Self)
        ensures
            event@ == PollerEvent::of_status(
                status_of(response.done, response.decoding(), text_view(response.error)),
            ),
    {
        PollerEvent::from_status(response.status())
    }
}

impl PollerStateView {
    /// A terminal state: the poller makes no transition out of it.
    pub open spec fn is_terminal(self) -> bool {
        self is Succeeded || self is Failed || self is TimedOut
    }
}

/// The message of a rejected submission: that of the error envelope where
/// there is one, else the body as it came.
pub open spec fn rejection_message(envelope: Option<Seq<char>>, body: Seq<char>) -> Seq<char> {
    match envelope {
        Some(message) => message,
        None => body,
    }
}

/// One more attempt, as far as a `u32` counts.
pub open spec fn one_more(attempts: u32) -> u32 {
    if attempts < u32::MAX {
        (attempts + 1) as u32
    } else {
        attempts
    }
}

/// Whether `event` is an answer that `state` waits for. Any other event is
/// left aside and changes nothing.
pub open spec fn accepts(state: PollerStateView, event: PollerEventView) -> bool {
    match state {
        PollerStateView::Submitting => event is Submitted || event is Aborted,
        PollerStateView::Polling { .. } => event is Polled || event is Aborted,
        PollerStateView::Waiting { .. } => event is Slept || event is Aborted,
        _ => false,
    }
}

/// The state after `event` in `state`.
pub open spec fn next_state(
    policy: PollPolicy,
    state: PollerStateView,
    event: PollerEventView,
) -> PollerStateView {
    if !accepts(state, event) {
        state
    } else {
        match event {
            PollerEventView::Aborted(error) => PollerStateView::Failed(error),
            PollerEventView::Submitted(SubmitOutcomeView::Rejected { envelope, body }) => {
                PollerStateView::Failed(
                    GemsErrorView::OperationFailed(rejection_message(envelope, body)),
                )
            },
            PollerEventView::Submitted(SubmitOutcomeView::Accepted { name: None }) => {
                PollerStateView::Failed(GemsErrorView::MissingOperationHandle)
            },
            PollerEventView::Submitted(SubmitOutcomeView::Accepted { name: Some(name) }) => {
                if policy.max_attempts == 0 {
                    PollerStateView::TimedOut
                } else {
                    PollerStateView::Polling { handle: name, attempts: 0 }
                }
            },
            PollerEventView::Polled(OperationStatusView::Pending) => PollerStateView::Waiting {
                handle: state->Polling_handle,
                attempts: one_more(state->Polling_attempts),
            },
            PollerEventView::Polled(OperationStatusView::Done(bytes)) => {
                PollerStateView::Succeeded(bytes)
            },
            PollerEventView::Polled(OperationStatusView::Failed(message)) => {
                PollerStateView::Failed(GemsErrorView::OperationFailed(message))
            },
            PollerEventView::Slept => {
                if state->Waiting_attempts < policy.max_attempts {
                    PollerStateView::Polling {
                        handle: state->Waiting_handle,
                        attempts: state->Waiting_attempts,
                    }
                } else {
                    PollerStateView::TimedOut
                }
            },
        }
    }
}

/// What the poller asks for in `state`.
pub open spec fn next_action(policy: PollPolicy, state: PollerStateView) -> PollerActionView {
    match state {
        PollerStateView::Submitting => PollerActionView::Submit,
        PollerStateView::Polling { handle, .. } => PollerActionView::Poll(handle),
        PollerStateView::Waiting { .. } => PollerActionView::Sleep(policy.interval_ms),
        _ => PollerActionView::Stop,
    }
}

/// Whether `event` is an answer that `state` waits for.
pub fn awaits(state: &PollerState, event: &PollerEvent) -> (accepted: bool)
    ensures
        accepted == accepts(state@, event@),
{
    match state {
        PollerState::Submitting => match event {
            PollerEvent::Submitted(_) => true,
            PollerEvent::Aborted(_) => true,
            _ => false,
        },
        PollerState::Polling { .. } => match event {
            PollerEvent::Polled(_) => true,
            PollerEvent::Aborted(_) => true,
            _ => false,
        },
        PollerState::Waiting { .. } => match event {
            PollerEvent::Slept => true,
            PollerEvent::Aborted(_) => true,
            _ => false,
        },
        _ => false,
    }
}

/// The message of a rejected submission: that of the error envelope where
/// there is one, else the body as it came.
pub fn error_message(envelope: Option<String>, body: String) -> (message: String)
    ensures
        message@ == rejection_message(text_view(envelope), body@),
{
    match envelope {
        Some(message) => message,
        None => body,
    }
}

/// The state after `event` in `state`.
pub fn advance(policy: &PollPolicy, state: PollerState, event: PollerEvent) -> (next: PollerState)
    ensures
        next@ == next_state(*policy, state@, event@),
{
    if !awaits(&state, &event) {
        return state;
    }
    match event {
        PollerEvent::Aborted(error) => PollerState::Failed(error),
        PollerEvent::Submitted(SubmitOutcome::Rejected { envelope, body }) => PollerState::Failed(
            GemsError::OperationFailed(error_message(envelope, body)),
        ),
        PollerEvent::Submitted(SubmitOutcome::Accepted { name: None }) => PollerState::Failed(
            GemsError::MissingOperationHandle,
        ),
        PollerEvent::Submitted(SubmitOutcome::Accepted { name: Some(name) }) => {
            if policy.max_attempts == 0 {
                PollerState::TimedOut
            } else {
                PollerState::Polling { handle: OperationHandle::new(name), attempts: 0 }
            }
        },
        PollerEvent::Polled(status) => match state {
            PollerState::Polling { handle, attempts } => match status {
                OperationStatus::Pending => PollerState::Waiting {
                    handle,
                    attempts: if attempts < u32::MAX {
                        attempts + 1
                    } else {
                        attempts
                    },
                },
                OperationStatus::Done(bytes) => PollerState::Succeeded(bytes),
                OperationStatus::Failed(message) => PollerState::Failed(
                    GemsError::OperationFailed(message),
                ),
            },
            other => other,
        },
        PollerEvent::Slept => match state {
            PollerState::Waiting { handle, attempts } => {
                if attempts < policy.max_attempts {
                    PollerState::Polling { handle, attempts }
                } else {
                    PollerState::TimedOut
                }
            },
            other => other,
        },
    }
}

/// What the poller asks for in `state`.
pub fn action(policy: &PollPolicy, state: &PollerState) -> (todo: PollerAction)
    ensures
        todo@ == next_action(*policy, state@),
{
    match state {
        PollerState::Submitting => PollerAction::Submit,
        PollerState::Polling { handle, .. } => PollerAction::Poll(handle.name().clone()),
        PollerState::Waiting { .. } => PollerAction::Sleep(policy.interval_ms),
        _ => PollerAction::Stop,
    }
}

/// The state that a poller reaches from `Submitting` over `events`.
pub open spec fn run(policy: PollPolicy, events: Seq<PollerEventView>) -> PollerStateView
    decreases events.len(),
{
    if events.len() == 0 {
        PollerStateView::Submitting
    } else {
        next_state(policy, run(policy, events.drop_last()), events.last())
    }
}

/// The actions that a poller asks for over `events`: the submission first,
/// then one action for each event that it accepts.
pub open spec fn trace(policy: PollPolicy, events: Seq<PollerEventView>) -> Seq<PollerActionView>
    decreases events.len(),
{
    if events.len() == 0 {
        seq![PollerActionView::Submit]
    } else {
        let before = run(policy, events.drop_last());
        if accepts(before, events.last()) {
            trace(policy, events.drop_last()).push(
                next_action(policy, next_state(policy, before, events.last())),
            )
        } else {
            trace(policy, events.drop_last())
        }
    }
}

/// How many polls `actions` holds.
pub open spec fn poll_count(actions: Seq<PollerActionView>) -> nat
    decreases actions.len(),
{
    if actions.len() == 0 {
        0
    } else if actions.last() is Poll {
        poll_count(actions.drop_last()) + 1
    } else {
        poll_count(actions.drop_last())
    }
}

/// How many sleeps `actions` holds.
pub open spec fn sleep_count(actions: Seq<PollerActionView>) -> nat
    decreases actions.len(),
{
    if actions.len() == 0 {
        0
    } else if actions.last() is Sleep {
        sleep_count(actions.drop_last()) + 1
    } else {
        sleep_count(actions.drop_last())
    }
}

/// The views of a sequence of events.
pub open spec fn event_views(events: Seq<PollerEvent>) -> Seq<PollerEventView> {
    events.map_values(|event: PollerEvent| event@)
}

/// The views of a sequence of actions.
pub open spec fn action_views(actions: Seq<PollerAction>) -> Seq<PollerActionView> {
    actions.map_values(|todo: PollerAction| todo@)
}

/// The poller of one job: the policy it was made with and the state it has
/// reached.
pub struct LongRunningOperationPoller {
    policy: PollPolicy,
    state: PollerState,
}

impl LongRunningOperationPoller {
    /// The policy that bounds the waiting.
    pub closed spec fn policy_view(&self) -> PollPolicy {
        self.policy
    }

    /// The state reached.
    pub closed spec fn state_view(&self) -> PollerStateView {
        self.state@
    }

    /// A poller that is about to submit its job.
    pub fn new(policy: PollPolicy) -> (poller: Self)
        ensures
            poller.policy_view() == policy,
            poller.state_view() == PollerStateView::Submitting,
    {
        LongRunningOperationPoller { policy, state: PollerState::Submitting }
    }

    /// The state reached.
    pub fn state(&self) -> (state: &PollerState)
        ensures
            state@ == self.state_view(),
    {
        &self.state
    }

    /// What the caller is to do next.
    pub fn action(&self) -> (todo: PollerAction)
        ensures
            todo@ == next_action(self.policy_view(), self.state_view()),
    {
        action(&self.policy, &self.state)
    }

    /// Takes what came of the last action.
    pub fn handle(&mut self, event: PollerEvent)
        ensures
            final(self).policy_view() == old(self).policy_view(),
            final(self).state_view() == next_state(
                old(self).policy_view(),
                old(self).state_view(),
                event@,
            ),
    {
        let mut state = PollerState::Submitting;
        core::mem::swap(&mut self.state, &mut state);
        self.state = advance(&self.policy, state, event);
    }

    /// Whether the state is terminal.
    pub fn is_done(&self) -> (done: bool)
        ensures
            done == self.state_view().is_terminal(),
    {
        match &self.state {
            PollerState::Succeeded(_) => true,
            PollerState::Failed(_) => true,
            PollerState::TimedOut => true,
            _ => false,
        }
    }

    /// The result of the call, once the state is terminal: the bytes of the
    /// operation, the error that ended it, or the timeout.
    pub fn outcome(self) -> (outcome: Option<Result<Vec<u8>, GemsError>>)
        ensures
            match self.state_view() {
                PollerStateView::Succeeded(bytes) => outcome matches Some(Ok(got)) && got@
                    == bytes,
                PollerStateView::Failed(error) => outcome matches Some(Err(got)) && got@ == error,
                PollerStateView::TimedOut => outcome matches Some(Err(got)) && got@
                    == GemsErrorView::Timeout,
                _ => outcome is None,
            },
    {
        match self.state {
            PollerState::Succeeded(bytes) => Some(Ok(bytes)),
            PollerState::Failed(error) => Some(Err(error)),
            PollerState::TimedOut => Some(Err(GemsError::Timeout)),
            _ => None,
        }
    }
}

/// What replaying a script of events gave: the state reached and the
/// actions asked for on the way.
pub struct PollerRun {
    pub state: PollerState,
    pub actions: Vec<PollerAction>,
}

/// Runs a poller from the submission over `events`, in order, and records
/// each action it asks for. An event that the poller does not wait for is
/// left aside.
pub fn replay(policy: PollPolicy, events: Vec<PollerEvent>) -> (outcome: PollerRun)
    ensures
        outcome.state@ == run(policy, event_views(events@)),
        action_views(outcome.actions@) == trace(policy, event_views(events@)),
{
    let mut state = PollerState::Submitting;
    let mut actions: Vec<PollerAction> = Vec::new();
    actions.push(PollerAction::Submit);
    let ghost all = event_views(events@);
    assert(action_views(actions@) =~= trace(policy, all.take(0)));
    for event in it: events
        invariant
            all == event_views(it.seq()),
            state@ == run(policy, all.take(it.index() as int)),
            action_views(actions@) == trace(policy, all.take(it.index() as int)),
    {
        let ghost before = action_views(actions@);
        proof {
            assert(all.take(it.index() + 1).drop_last() =~= all.take(it.index() as int));
        }
        if awaits(&state, &event) {
            state = advance(&policy, state, event);
            let todo = action(&policy, &state);
            actions.push(todo);
            assert(action_views(actions@) =~= before.push(todo@));
        }
    }
    assert(all.take(all.len() as int) =~= all);
    PollerRun { state, actions }
}

/// A terminal state is absorbing: no event leads out of it, and it asks for
/// nothing more.
pub proof fn lemma_terminal_is_absorbing(
    policy: PollPolicy,
    state: PollerStateView,
    event: PollerEventView,
)
    requires
        state.is_terminal(),
    ensures
        next_state(policy, state, event) == state,
        next_action(policy, state) == PollerActionView::Stop,
{
}

/// Transitions go one way. The poller never returns to the submission;
/// while it polls and waits, the handle stays the one it was given and the
/// count of attempts never falls; and whatever it leaves polling or waiting
/// for is a terminal state.
pub proof fn lemma_transitions_are_monotonic(
    policy: PollPolicy,
    state: PollerStateView,
    event: PollerEventView,
)
    ensures
        !(state is Submitting) ==> !(next_state(policy, state, event) is Submitting),
        state matches PollerStateView::Polling { handle, attempts } ==> match next_state(
            policy,
            state,
            event,
        ) {
            PollerStateView::Polling { handle: kept, attempts: after } => kept == handle
                && after == attempts,
            PollerStateView::Waiting { handle: kept, attempts: after } => kept == handle
                && after >= attempts,
            other => other.is_terminal(),
        },
        state matches PollerStateView::Waiting { handle, attempts } ==> match next_state(
            policy,
            state,
            event,
        ) {
            PollerStateView::Polling { handle: kept, attempts: after } => kept == handle
                && after == attempts,
            PollerStateView::Waiting { handle: kept, attempts: after } => kept == handle
                && after == attempts,
            other => other.is_terminal(),
        },
{
}

/// A status that says the operation has ended ends the polling: the poller
/// that is told so while it polls is done, with the bytes of the operation
/// or with the failure that the server reported, and one that is told the
/// operation is pending goes on to wait.
pub proof fn lemma_terminal_status_ends_polling(
    policy: PollPolicy,
    state: PollerStateView,
    status: OperationStatusView,
)
    requires
        state is Polling,
    ensures
        next_state(policy, state, PollerEventView::Polled(status)).is_terminal()
            == status.is_terminal(),
        status matches OperationStatusView::Done(bytes) ==> next_state(
            policy,
            state,
            PollerEventView::Polled(status),
        ) == PollerStateView::Succeeded(bytes),
        status matches OperationStatusView::Failed(message) ==> next_state(
            policy,
            state,
            PollerEventView::Polled(status),
        ) == PollerStateView::Failed(GemsErrorView::OperationFailed(message)),
{
}

/// Calling the operation off ends the call at once, wherever it stands
/// short of a terminal state, with an error that is no timeout.
pub proof fn lemma_cancellation_ends_the_call(policy: PollPolicy, state: PollerStateView)
    requires
        !state.is_terminal(),
    ensures
        next_state(policy, state, PollerEventView::Aborted(GemsErrorView::Cancelled))
            == PollerStateView::Failed(GemsErrorView::Cancelled),
        next_action(
            policy,
            next_state(policy, state, PollerEventView::Aborted(GemsErrorView::Cancelled)),
        ) == PollerActionView::Stop,
{
}

/// One more event: the run goes one transition further, and the trace grows
/// by one action where the event is accepted.
pub proof fn lemma_run_push(policy: PollPolicy, events: Seq<PollerEventView>, event: PollerEventView)
    ensures
        run(policy, events.push(event)) == next_state(policy, run(policy, events), event),
        trace(policy, events.push(event)) == if accepts(run(policy, events), event) {
            trace(policy, events).push(next_action(policy, run(policy, events.push(event))))
        } else {
            trace(policy, events)
        },
{
    assert(events.push(event).drop_last() =~= events);
}

/// Counting one more action.
pub proof fn lemma_count_push(actions: Seq<PollerActionView>, todo: PollerActionView)
    ensures
        poll_count(actions.push(todo)) == poll_count(actions) + if todo is Poll {
            1nat
        } else {
            0nat
        },
        sleep_count(actions.push(todo)) == sleep_count(actions) + if todo is Sleep {
            1nat
        } else {
            0nat
        },
{
    assert(actions.push(todo).drop_last() =~= actions);
}

/// The trace of no events is the submission alone.
pub proof fn lemma_trace_of_nothing(policy: PollPolicy)
    ensures
        run(policy, Seq::empty()) == PollerStateView::Submitting,
        trace(policy, Seq::empty()) == seq![PollerActionView::Submit],
        poll_count(trace(policy, Seq::empty())) == 0,
        sleep_count(trace(policy, Seq::empty())) == 0,
{
    assert(seq![PollerActionView::Submit] =~= Seq::empty().push(PollerActionView::Submit));
    lemma_count_push(Seq::empty(), PollerActionView::Submit);
}

/// The budget holds whatever happens: over any events at all, the poller
/// asks for no more polls than the policy allows. While an operation is
/// polled or waited for, the polls asked for are those that its state counts.
pub proof fn lemma_polls_within_budget(policy: PollPolicy, events: Seq<PollerEventView>)
    ensures
        poll_count(trace(policy, events)) <= policy.max_attempts,
        match run(policy, events) {
            PollerStateView::Submitting => poll_count(trace(policy, events)) == 0,
            PollerStateView::Polling { attempts, .. } => {
                &&& attempts < policy.max_attempts
                &&& poll_count(trace(policy, events)) == attempts + 1
            },
            PollerStateView::Waiting { attempts, .. } => {
                &&& 1 <= attempts <= policy.max_attempts
                &&& poll_count(trace(policy, events)) == attempts
            },
            _ => true,
        },
    decreases events.len(),
{
    if events.len() == 0 {
        assert(events =~= Seq::empty());
        lemma_trace_of_nothing(policy);
    } else {
        let earlier = events.drop_last();
        lemma_polls_within_budget(policy, earlier);
        assert(events =~= earlier.push(events.last()));
        lemma_run_push(policy, earlier, events.last());
        lemma_count_push(trace(policy, earlier), next_action(policy, run(policy, events)));
    }
}

/// The last action of the trace is the one that the state reached asks for.
pub proof fn lemma_trace_ends_with_action(policy: PollPolicy, events: Seq<PollerEventView>)
    ensures
        trace(policy, events).len() > 0,
        trace(policy, events).last() == next_action(policy, run(policy, events)),
    decreases events.len(),
{
    if events.len() > 0 {
        lemma_trace_ends_with_action(policy, events.drop_last());
    }
}

/// Polls are strictly sequential and evenly spaced: every sleep lasts the
/// interval of the policy and follows a poll, and every poll follows the
/// submission or a sleep.
pub proof fn lemma_polls_are_spaced(policy: PollPolicy, events: Seq<PollerEventView>, i: int)
    requires
        0 <= i < trace(policy, events).len(),
    ensures
        trace(policy, events)[i] is Sleep ==> {
            &&& trace(policy, events)[i] == PollerActionView::Sleep(policy.interval_ms)
            &&& i > 0 && trace(policy, events)[i - 1] is Poll
        },
        trace(policy, events)[i] is Poll ==> {
            &&& i > 0
            &&& trace(policy, events)[i - 1] is Submit || trace(policy, events)[i - 1] is Sleep
        },
        trace(policy, events)[i] is Submit ==> i == 0,
    decreases events.len(),
{
    if events.len() > 0 {
        let earlier = events.drop_last();
        lemma_trace_ends_with_action(policy, earlier);
        if i < trace(policy, earlier).len() {
            lemma_polls_are_spaced(policy, earlier, i);
        }
    }
}

/// The events of `rounds` polls that each find the operation pending, with
/// the sleep after each.
pub open spec fn pending_rounds(rounds: nat) -> Seq<PollerEventView>
    decreases rounds,
{
    if rounds == 0 {
        Seq::empty()
    } else {
        pending_rounds((rounds - 1) as nat).push(
            PollerEventView::Polled(OperationStatusView::Pending),
        ).push(PollerEventView::Slept)
    }
}

/// The events of a submission that the server accepts under `name`.
pub open spec fn accepted(name: Seq<char>) -> Seq<PollerEventView> {
    seq![PollerEventView::Submitted(SubmitOutcomeView::Accepted { name: Some(name) })]
}

/// After an accepted submission and `rounds` pending polls, within the
/// budget, the poller is about to poll once more, or has timed out where the
/// budget is spent. It has asked for one sleep after each pending poll.
pub proof fn lemma_pending_rounds(policy: PollPolicy, name: Seq<char>, rounds: nat)
    requires
        rounds <= policy.max_attempts,
    ensures
        run(policy, accepted(name) + pending_rounds(rounds)) == if rounds < policy.max_attempts {
            PollerStateView::Polling { handle: name, attempts: rounds as u32 }
        } else {
            PollerStateView::TimedOut
        },
        poll_count(trace(policy, accepted(name) + pending_rounds(rounds))) == if rounds
            < policy.max_attempts {
            rounds + 1
        } else {
            rounds
        },
        sleep_count(trace(policy, accepted(name) + pending_rounds(rounds))) == rounds,
    decreases rounds,
{
    let start = accepted(name);
    if rounds == 0 {
        assert(start + pending_rounds(0) =~= Seq::<PollerEventView>::empty().push(start[0]));
        lemma_trace_of_nothing(policy);
        lemma_run_push(policy, Seq::empty(), start[0]);
        lemma_count_push(
            trace(policy, Seq::empty()),
            next_action(policy, run(policy, start + pending_rounds(0))),
        );
    } else {
        let earlier = start + pending_rounds((rounds - 1) as nat);
        let pending = PollerEventView::Polled(OperationStatusView::Pending);
        lemma_pending_rounds(policy, name, (rounds - 1) as nat);
        assert(start + pending_rounds(rounds) =~= earlier.push(pending).push(
            PollerEventView::Slept,
        ));
        lemma_run_push(policy, earlier, pending);
        lemma_run_push(policy, earlier.push(pending), PollerEventView::Slept);
        lemma_count_push(
            trace(policy, earlier),
            next_action(policy, run(policy, earlier.push(pending))),
        );
        lemma_count_push(
            trace(policy, earlier.push(pending)),
            next_action(policy, run(policy, earlier.push(pending).push(PollerEventView::Slept))),
        );
    }
}

/// A poller that only ever finds its operation pending times out after
/// exactly as many polls as the policy allows.
pub proof fn lemma_always_pending_times_out(policy: PollPolicy, name: Seq<char>)
    ensures
        run(policy, accepted(name) + pending_rounds(policy.max_attempts as nat))
            == PollerStateView::TimedOut,
        poll_count(trace(policy, accepted(name) + pending_rounds(policy.max_attempts as nat)))
            == policy.max_attempts,
{
    lemma_pending_rounds(policy, name, policy.max_attempts as nat);
}

/// A poller that finds its operation pending `rounds` times and then done
/// succeeds with the bytes of that answer, after exactly `rounds + 1` polls
/// and `rounds` sleeps.
pub proof fn lemma_done_after_pending_succeeds(
    policy: PollPolicy,
    name: Seq<char>,
    rounds: nat,
    bytes: Seq<u8>,
)
    requires
        rounds < policy.max_attempts,
    ensures
        ({
            let events = (accepted(name) + pending_rounds(rounds)).push(
                PollerEventView::Polled(OperationStatusView::Done(bytes)),
            );
            &&& run(policy, events) == PollerStateView::Succeeded(bytes)
            &&& poll_count(trace(policy, events)) == rounds + 1
            &&& sleep_count(trace(policy, events)) == rounds
        }),
{
    let earlier = accepted(name) + pending_rounds(rounds);
    let done = PollerEventView::Polled(OperationStatusView::Done(bytes));
    lemma_pending_rounds(policy, name, rounds);
    lemma_run_push(policy, earlier, done);
    lemma_count_push(trace(policy, earlier), next_action(policy, run(policy, earlier.push(done))));
}

/// A submission that the server rejects fails the call with the message of
/// the rejection, and no poll is ever asked for, whatever events follow.
pub proof fn lemma_rejected_submission_fails(
    policy: PollPolicy,
    envelope: Option<Seq<char>>,
    body: Seq<char>,
    later: Seq<PollerEventView>,
)
    ensures
        ({
            let rejected = seq![
                PollerEventView::Submitted(SubmitOutcomeView::Rejected { envelope, body }),
            ];
            &&& run(policy, rejected + later) == PollerStateView::Failed(
                GemsErrorView::OperationFailed(rejection_message(envelope, body)),
            )
            &&& poll_count(trace(policy, rejected + later)) == 0
        }),
    decreases later.len(),
{
    let first = PollerEventView::Submitted(SubmitOutcomeView::Rejected { envelope, body });
    let rejected = seq![first];
    if later.len() == 0 {
        assert(rejected + later =~= Seq::<PollerEventView>::empty().push(first));
        lemma_trace_of_nothing(policy);
        lemma_run_push(policy, Seq::empty(), first);
        lemma_count_push(
            trace(policy, Seq::empty()),
            next_action(policy, run(policy, rejected + later)),
        );
    } else {
        lemma_rejected_submission_fails(policy, envelope, body, later.drop_last());
        assert(rejected + later =~= (rejected + later.drop_last()).push(later.last()));
        lemma_run_push(policy, rejected + later.drop_last(), later.last());
    }
}

/// Whether `event` is an answer to `todo`: what came of the submission, of a
/// poll or of a sleep, or the failure of any of them.
pub open spec fn answers(todo: PollerActionView, event: PollerEventView) -> bool {
    match todo {
        PollerActionView::Submit => event is Submitted || event is Aborted,
        PollerActionView::Poll(_) => event is Polled || event is Aborted,
        PollerActionView::Sleep(_) => event is Slept || event is Aborted,
        PollerActionView::Stop => false,
    }
}

/// The poller accepts exactly the events that answer the action it asked
/// for: a caller that hands back what came of each action is never left
/// aside.
pub proof fn lemma_answers_are_accepted(
    policy: PollPolicy,
    state: PollerStateView,
    event: PollerEventView,
)
    ensures
        accepts(state, event) == answers(next_action(policy, state), event),
{
}

/// Whether the count of attempts of `state` is within the budget of
/// `policy`: a poll under way has an attempt left, and a wait follows at
/// least one poll and at most the last one allowed.
pub open spec fn within_budget(policy: PollPolicy, state: PollerStateView) -> bool {
    match state {
        PollerStateView::Polling { attempts, .. } => attempts < policy.max_attempts,
        PollerStateView::Waiting { attempts, .. } => 1 <= attempts <= policy.max_attempts,
        _ => true,
    }
}

/// How many more events a poller in `state` can accept at most before its
/// state is terminal.
pub open spec fn steps_left(policy: PollPolicy, state: PollerStateView) -> int {
    match state {
        PollerStateView::Submitting => 2 * policy.max_attempts + 1,
        PollerStateView::Polling { attempts, .. } => 2 * (policy.max_attempts - attempts),
        PollerStateView::Waiting { attempts, .. } => 2 * (policy.max_attempts - attempts) + 1,
        _ => 0,
    }
}

/// Every event that the poller accepts brings it closer to a terminal
/// state, and keeps its count of attempts within the budget.
pub proof fn lemma_accepted_event_makes_progress(
    policy: PollPolicy,
    state: PollerStateView,
    event: PollerEventView,
)
    requires
        within_budget(policy, state),
        accepts(state, event),
    ensures
        within_budget(policy, next_state(policy, state, event)),
        0 <= steps_left(policy, next_state(policy, state, event)) < steps_left(policy, state),
{
}

/// The waiting is bounded: whatever events come, the poller asks for no more
/// than one submission, the polls allowed and a sleep after each, and one
/// stop.
pub proof fn lemma_trace_is_bounded(policy: PollPolicy, events: Seq<PollerEventView>)
    ensures
        within_budget(policy, run(policy, events)),
        trace(policy, events).len() + steps_left(policy, run(policy, events)) <= 2
            * policy.max_attempts + 2,
        trace(policy, events).len() <= 2 * policy.max_attempts + 2,
    decreases events.len(),
{
    if events.len() > 0 {
        let earlier = events.drop_last();
        lemma_trace_is_bounded(policy, earlier);
        if accepts(run(policy, earlier), events.last()) {
            lemma_accepted_event_makes_progress(policy, run(policy, earlier), events.last());
        }
    }
}

} // verus!
