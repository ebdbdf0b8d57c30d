//! The workflow of a submission as a state machine.
//!
//! The machine decides; the program around it acts. It starts with
//! [`start`], performs the [`Action`] it is given, reports what came of it as
//! an [`Event`] to [`advance`], and goes on until the action is
//! [`Action::Finish`]. The [`Outcome`] is then in the state.
//!
//! A run goes through the states in one direction only:
//! `Probing`, `Collecting`, `Checking`, then `Confirming` where the check
//! found a possible duplicate, `ForceChecking` where a token has yet to be
//! had, `Uploading`, and `Finished`.

use vstd::prelude::*;
use crate::constants::{HTTP_OK, MIN_BITRATE};
use crate::interactive::{guard_bitrate, BitrateTooLow};
use crate::outcome::{Abort, Outcome, OutcomeView, SubmitError, SubmitErrorView};
use crate::types::{
    DupeCheckError, DupeCheckResponseBody, DupeCheckResponseBodyView, DupeItem, DupeItemView,
};
use crate::upload::upload_result;

verus! {

/// Where a submission stands: what it is waiting for, or how it ended.
#[derive(Clone, Debug, PartialEq, Eq)]
pub enum State {
    /// The probe is reading the file's metadata.
    Probing,
    /// The operator is asked for metadata and classification, and the file is
    /// read and its checksum computed.
    Collecting,
    /// The first duplicate check is under way.
    Checking,
    /// The check found a possible duplicate; the operator is asked whether
    /// to go on.
    Confirming,
    /// The forced duplicate check is under way.
    ForceChecking,
    /// The upload is under way.
    Uploading,
    /// The submission is over.
    Finished(Outcome),
}

/// Mathematical form of [`State`].
pub enum StateView {
    Probing,
    Collecting,
    Checking,
    Confirming,
    ForceChecking,
    Uploading,
    Finished(OutcomeView),
}

impl View for State {
    type V = StateView;

    open spec fn view(&self) -> StateView {
        match self {
            State::Probing => StateView::Probing,
            State::Collecting => StateView::Collecting,
            State::Checking => StateView::Checking,
            State::Confirming => StateView::Confirming,
            State::ForceChecking => StateView::ForceChecking,
            State::Uploading => StateView::Uploading,
            State::Finished(outcome) => StateView::Finished(outcome@),
        }
    }
}

/// What the program is to do next.
#[derive(Clone, Debug, PartialEq, Eq)]
pub enum Action {
    /// Run the metadata probe on the file.
    Probe,
    /// Ask the operator for metadata and classification, read the file and
    /// compute its checksum.
    Collect,
    /// Send a duplicate check, forced or not.
    CheckDupe { forced: bool },
    /// Show the candidates and ask the operator whether to go on.
    Confirm { candidates: Vec<DupeItem> },
    /// Upload the file with this token.
    Upload { token: String },
    /// Stop and report the outcome that the state holds.
    Finish,
}

/// Mathematical form of [`Action`].
pub enum ActionView {
    Probe,
    Collect,
    CheckDupe { forced: bool },
    Confirm { candidates: Seq<DupeItemView> },
    Upload { token: Seq<char> },
    Finish,
}

impl View for Action {
    type V = ActionView;

    open spec fn view(&self) -> ActionView {
        match self {
            Action::Probe => ActionView::Probe,
            Action::Collect => ActionView::Collect,
            Action::CheckDupe { forced } => ActionView::CheckDupe { forced: *forced },
            Action::Confirm { candidates } => ActionView::Confirm {
                candidates: candidates.deep_view(),
            },
            Action::Upload { token } => ActionView::Upload { token: token@ },
            Action::Finish => ActionView::Finish,
        }
    }
}

impl ActionView {
    /// Whether the action sends anything over the network.
    pub open spec fn is_network_call(self) -> bool {
        self is CheckDupe || self is Upload
    }
}

/// What came of the last action.
#[derive(Clone, Debug, PartialEq, Eq)]
pub enum Event {
    /// The probe found this bit rate.
    Probed { bit_rate: u64 },
    /// Metadata, classification and checksum are at hand.
    Collected,
    /// A duplicate check was answered.
    Checked(DupeCheckResponseBody),
    /// The operator answered the confirmation.
    Confirmed(bool),
    /// The storage answered the upload.
    UploadFinished { status: u16, body: String },
    /// The action could not be carried out; carries the message.
    Failed(String),
}

/// Mathematical form of [`Event`].
pub enum EventView {
    Probed { bit_rate: u64 },
    Collected,
    Checked(DupeCheckResponseBodyView),
    Confirmed(bool),
    UploadFinished { status: u16, body: Seq<char> },
    Failed(Seq<char>),
}

impl View for Event {
    type V = EventView;

    open spec fn view(&self) -> EventView {
        match self {
            Event::Probed { bit_rate } => EventView::Probed { bit_rate: *bit_rate },
            Event::Collected => EventView::Collected,
            Event::Checked(response) => EventView::Checked(response@),
            Event::Confirmed(accepted) => EventView::Confirmed(*accepted),
            Event::UploadFinished { status, body } => EventView::UploadFinished {
                status: *status,
                body: body@,
            },
            Event::Failed(message) => EventView::Failed(message@),
        }
    }
}

/// The end of a submission by an error.
pub open spec fn failed(error: SubmitErrorView) -> (StateView, ActionView) {
    (StateView::Finished(OutcomeView::Failed(error)), ActionView::Finish)
}

/// The end of a submission by an abort.
pub open spec fn aborted(reason: Abort) -> (StateView, ActionView) {
    (StateView::Finished(OutcomeView::Aborted(reason)), ActionView::Finish)
}

/// After the probe: a bit rate below the minimum ends the submission, any
/// other lets the prompts begin.
pub open spec fn after_probe(bit_rate: u64) -> (StateView, ActionView) {
    if bit_rate < MIN_BITRATE {
        failed(SubmitErrorView::BitrateTooLow(BitrateTooLow { bit_rate }))
    } else {
        (StateView::Collecting, ActionView::Collect)
    }
}

/// After the first duplicate check.
///
/// Success with a token leads to the upload with that token; success without
/// one to the forced check. A terminal reason ends the submission. A possible
/// duplicate leads to the confirmation with the candidates. An answer that
/// is not well formed, or reports a possible duplicate without candidates,
/// is malformed.
pub open spec fn after_first_check(response: DupeCheckResponseBodyView) -> (
    StateView,
    ActionView,
) {
    if !response.well_formed() {
        failed(SubmitErrorView::MalformedResponse)
    } else if response.success {
        match response.token {
            Some(token) => (StateView::Uploading, ActionView::Upload { token }),
            None => (StateView::ForceChecking, ActionView::CheckDupe { forced: true }),
        }
    } else if response.error_code->0.is_terminal_spec() {
        aborted(Abort::Rejected(response.error_code->0))
    } else {
        match response.result {
            Some(candidates) => (StateView::Confirming, ActionView::Confirm { candidates }),
            None => failed(SubmitErrorView::MalformedResponse),
        }
    }
}

/// After the confirmation: the forced check if the operator accepted, the
/// end if not.
pub open spec fn after_confirmation(accepted: bool) -> (StateView, ActionView) {
    if accepted {
        (StateView::ForceChecking, ActionView::CheckDupe { forced: true })
    } else {
        aborted(Abort::Declined)
    }
}

/// After the forced duplicate check: the upload with the token of the answer,
/// or the end if it has none. An answer that is not well formed is
/// malformed.
pub open spec fn after_forced_check(response: DupeCheckResponseBodyView) -> (
    StateView,
    ActionView,
) {
    if !response.well_formed() {
        failed(SubmitErrorView::MalformedResponse)
    } else {
        match response.token {
            Some(token) => (StateView::Uploading, ActionView::Upload { token }),
            None => failed(SubmitErrorView::MissingToken),
        }
    }
}

/// After the upload: status 200 is success, any other status an error that
/// carries the body of the answer.
pub open spec fn after_upload(status: u16, body: Seq<char>) -> (StateView, ActionView) {
    if status == HTTP_OK {
        (StateView::Finished(OutcomeView::Uploaded), ActionView::Finish)
    } else {
        failed(SubmitErrorView::Upload(body))
    }
}

/// One step of the machine: the next state and the action to perform, for a
/// state and the event that arrived in it.
///
/// In each state one kind of event is waited for. `Failed` ends the
/// submission from any state that is not finished: as a transport error
/// where a request was under way, as an error of the program's collaborators
/// otherwise. Any other event ends it as unexpected. A finished submission
/// stays as it is.
pub open spec fn step(state: StateView, event: EventView) -> (StateView, ActionView) {
    match state {
        StateView::Finished(_) => (state, ActionView::Finish),
        StateView::Probing => match event {
            EventView::Probed { bit_rate } => after_probe(bit_rate),
            EventView::Failed(message) => failed(SubmitErrorView::Collaborator(message)),
            _ => failed(SubmitErrorView::UnexpectedEvent),
        },
        StateView::Collecting => match event {
            EventView::Collected => (StateView::Checking, ActionView::CheckDupe { forced: false }),
            EventView::Failed(message) => failed(SubmitErrorView::Collaborator(message)),
            _ => failed(SubmitErrorView::UnexpectedEvent),
        },
        StateView::Checking => match event {
            EventView::Checked(response) => after_first_check(response),
            EventView::Failed(message) => failed(SubmitErrorView::Transport(message)),
            _ => failed(SubmitErrorView::UnexpectedEvent),
        },
        StateView::Confirming => match event {
            EventView::Confirmed(accepted) => after_confirmation(accepted),
            EventView::Failed(message) => failed(SubmitErrorView::Collaborator(message)),
            _ => failed(SubmitErrorView::UnexpectedEvent),
        },
        StateView::ForceChecking => match event {
            EventView::Checked(response) => after_forced_check(response),
            EventView::Failed(message) => failed(SubmitErrorView::Transport(message)),
            _ => failed(SubmitErrorView::UnexpectedEvent),
        },
        StateView::Uploading => match event {
            EventView::UploadFinished { status, body } => after_upload(status, body),
            EventView::Failed(message) => failed(SubmitErrorView::Transport(message)),
            _ => failed(SubmitErrorView::UnexpectedEvent),
        },
    }
}

/// The beginning of every submission: the probe is run first.
pub fn start() -> (first: (State, Action))
    ensures
        first.0@ == StateView::Probing,
        first.1@ == ActionView::Probe,
{
    (State::Probing, Action::Probe)
}

fn fail(error: SubmitError) -> (next: (State, Action))
    ensures
        (next.0@, next.1@) == failed(error@),
{
    (State::Finished(Outcome::Failed(error)), Action::Finish)
}

fn abort(reason: Abort) -> (next: (State, Action))
    ensures
        (next.0@, next.1@) == aborted(reason),
{
    (State::Finished(Outcome::Aborted(reason)), Action::Finish)
}

fn first_check(response: DupeCheckResponseBody) -> (next: (State, Action))
    ensures
        (next.0@, next.1@) == after_first_check(response@),
{
    if !response.is_well_formed() {
        return fail(SubmitError::MalformedResponse);
    }
    match response.error_code {
        None => match response.token {
            Some(token) => (State::Uploading, Action::Upload { token }),
            None => (State::ForceChecking, Action::CheckDupe { forced: true }),
        },
        Some(reason) => if reason.is_terminal() {
            abort(Abort::Rejected(reason))
        } else {
            match response.result {
                Some(candidates) => (State::Confirming, Action::Confirm { candidates }),
                None => fail(SubmitError::MalformedResponse),
            }
        },
    }
}

fn forced_check(response: DupeCheckResponseBody) -> (next: (State, Action))
    ensures
        (next.0@, next.1@) == after_forced_check(response@),
{
    if !response.is_well_formed() {
        return fail(SubmitError::MalformedResponse);
    }
    match response.token {
        Some(token) => (State::Uploading, Action::Upload { token }),
        None => fail(SubmitError::MissingToken),
    }
}

/// Takes one step: see [`step`].
pub fn advance(state: State, event: Event) -> (next: (State, Action))
    ensures
        (next.0@, next.1@) == step(state@, event@),
{
    match state {
        State::Finished(outcome) => (State::Finished(outcome), Action::Finish),
        State::Probing => match event {
            Event::Probed { bit_rate } => match guard_bitrate(bit_rate) {
                Ok(()) => (State::Collecting, Action::Collect),
                Err(error) => fail(SubmitError::BitrateTooLow(error)),
            },
            Event::Failed(message) => fail(SubmitError::Collaborator(message)),
            _ => fail(SubmitError::UnexpectedEvent),
        },
        State::Collecting => match event {
            Event::Collected => (State::Checking, Action::CheckDupe { forced: false }),
            Event::Failed(message) => fail(SubmitError::Collaborator(message)),
            _ => fail(SubmitError::UnexpectedEvent),
        },
        State::Checking => match event {
            Event::Checked(response) => first_check(response),
            Event::Failed(message) => fail(SubmitError::Transport(message)),
            _ => fail(SubmitError::UnexpectedEvent),
        },
        State::Confirming => match event {
            Event::Confirmed(accepted) => if accepted {
                (State::ForceChecking, Action::CheckDupe { forced: true })
            } else {
                abort(Abort::Declined)
            },
            Event::Failed(message) => fail(SubmitError::Collaborator(message)),
            _ => fail(SubmitError::UnexpectedEvent),
        },
        State::ForceChecking => match event {
            Event::Checked(response) => forced_check(response),
            Event::Failed(message) => fail(SubmitError::Transport(message)),
            _ => fail(SubmitError::UnexpectedEvent),
        },
        State::Uploading => match event {
            Event::UploadFinished { status, body } => match upload_result(status, body) {
                Ok(()) => (State::Finished(Outcome::Uploaded), Action::Finish),
                Err(error) => fail(SubmitError::Upload(error.body)),
            },
            Event::Failed(message) => fail(SubmitError::Transport(message)),
            _ => fail(SubmitError::UnexpectedEvent),
        },
    }
}

/// How far a state is from the end: every step of an unfinished submission
/// leads to a state that is nearer to it.
pub open spec fn rank(state: StateView) -> nat {
    match state {
        StateView::Probing => 6,
        StateView::Collecting => 5,
        StateView::Checking => 4,
        StateView::Confirming => 3,
        StateView::ForceChecking => 2,
        StateView::Uploading => 1,
        StateView::Finished(_) => 0,
    }
}

/// The state that an action leads into: each action but `Finish` announces
/// the state in which its result is waited for.
pub open spec fn announces(action: ActionView, state: StateView) -> bool {
    match action {
        ActionView::Probe => state is Probing,
        ActionView::Collect => state is Collecting,
        ActionView::CheckDupe { forced } => if forced {
            state is ForceChecking
        } else {
            state is Checking
        },
        ActionView::Confirm { .. } => state is Confirming,
        ActionView::Upload { .. } => state is Uploading,
        ActionView::Finish => state is Finished,
    }
}

/// The place of a network call in the order of a submission: the first
/// duplicate check, the forced one, the upload. Zero for any other action.
pub open spec fn call_order(action: ActionView) -> int {
    match action {
        ActionView::CheckDupe { forced } => if forced {
            2
        } else {
            1
        },
        ActionView::Upload { .. } => 3,
        _ => 0,
    }
}

/// The state after a sequence of events.
pub open spec fn run(state: StateView, events: Seq<EventView>) -> StateView
    decreases events.len(),
{
    if events.len() == 0 {
        state
    } else {
        run(step(state, events[0]).0, events.drop_first())
    }
}

/// The actions that a sequence of events brings about, one for each event.
pub open spec fn actions(state: StateView, events: Seq<EventView>) -> Seq<ActionView>
    decreases events.len(),
{
    if events.len() == 0 {
        Seq::<ActionView>::empty()
    } else {
        seq![step(state, events[0]).1] + actions(step(state, events[0]).0, events.drop_first())
    }
}

/// Every step leads nearer to the end, and its action announces the state
/// it leads into. A finished submission stays as it is.
pub proof fn lemma_step_goes_forward(state: StateView, event: EventView)
    ensures
        announces(step(state, event).1, step(state, event).0),
        state is Finished ==> step(state, event).0 == state,
        !(state is Finished) ==> rank(step(state, event).0) < rank(state),
{
}

/// A run never leads away from the end, and brings about one action for
/// each event.
pub proof fn lemma_run_goes_forward(state: StateView, events: Seq<EventView>)
    ensures
        rank(run(state, events)) <= rank(state),
        state is Finished ==> run(state, events) == state,
        actions(state, events).len() == events.len(),
    decreases events.len(),
{
    if events.len() > 0 {
        lemma_step_goes_forward(state, events[0]);
        lemma_run_goes_forward(step(state, events[0]).0, events.drop_first());
    }
}

/// A run can be cut at any event: the state after the whole is the state
/// after the second part, begun where the first part ended.
pub proof fn lemma_run_split(state: StateView, events: Seq<EventView>, at: int)
    requires
        0 <= at <= events.len(),
    ensures
        run(state, events) == run(run(state, events.take(at)), events.skip(at)),
    decreases at,
{
    if at == 0 {
        assert(events.skip(0) =~= events);
    } else {
        let next = step(state, events[0]).0;
        assert(events.take(at).drop_first() =~= events.drop_first().take(at - 1));
        assert(events.skip(at) =~= events.drop_first().skip(at - 1));
        lemma_run_split(next, events.drop_first(), at - 1);
    }
}

/// The action at a position of a run is the action of one step, taken in the
/// state that the events before it led to.
pub proof fn lemma_action_at(state: StateView, events: Seq<EventView>, at: int)
    requires
        0 <= at < events.len(),
    ensures
        actions(state, events).len() == events.len(),
        actions(state, events)[at] == step(run(state, events.take(at)), events[at]).1,
        run(state, events.take(at + 1)) == step(run(state, events.take(at)), events[at]).0,
    decreases at,
{
    lemma_run_goes_forward(state, events);
    let next = step(state, events[0]).0;
    let rest = events.drop_first();
    assert(events.take(at + 1)[0] == events[0]);
    if at == 0 {
        assert(events.take(0) =~= Seq::<EventView>::empty());
        assert(events.take(1).drop_first() =~= Seq::<EventView>::empty());
    } else {
        assert(events.take(at)[0] == events[0]);
        assert(events.take(at).drop_first() =~= rest.take(at - 1));
        assert(events.take(at + 1).drop_first() =~= rest.take(at));
        assert(rest[at - 1] == events[at]);
        lemma_action_at(next, rest, at - 1);
    }
}

/// A run that begins with one event is one step followed by the run of the
/// rest.
pub proof fn lemma_first_step(state: StateView, first: EventView, later: Seq<EventView>)
    ensures
        run(state, seq![first] + later) == run(step(state, first).0, later),
        actions(state, seq![first] + later) == seq![step(state, first).1] + actions(
            step(state, first).0,
            later,
        ),
{
    let events = seq![first] + later;
    assert(events.len() > 0);
    assert(events[0] == first);
    assert(events.drop_first() =~= later);
}

/// Once a submission is finished, no event changes its outcome, and nothing
/// is done but to finish.
pub proof fn lemma_finished_stays(outcome: OutcomeView, events: Seq<EventView>)
    ensures
        run(StateView::Finished(outcome), events) == StateView::Finished(outcome),
        forall|i: int|
            0 <= i < events.len() ==> #[trigger] actions(StateView::Finished(outcome), events)[i]
                == ActionView::Finish,
{
    let state = StateView::Finished(outcome);
    lemma_run_goes_forward(state, events);
    assert forall|i: int| 0 <= i < events.len() implies #[trigger] actions(state, events)[i]
        == ActionView::Finish by {
        lemma_action_at(state, events, i);
        lemma_run_goes_forward(state, events.take(i));
    }
}

/// In every run, from whatever state, the network calls come in one order:
/// the first duplicate check, then the forced one, then the upload. So none
/// of the three is made twice.
pub proof fn lemma_calls_in_order(state: StateView, events: Seq<EventView>, i: int, j: int)
    requires
        0 <= i < j < events.len(),
        actions(state, events)[i].is_network_call(),
        actions(state, events)[j].is_network_call(),
    ensures
        call_order(actions(state, events)[i]) < call_order(actions(state, events)[j]),
{
    let before_i = run(state, events.take(i));
    let after_i = run(state, events.take(i + 1));
    let before_j = run(state, events.take(j));
    lemma_action_at(state, events, i);
    lemma_action_at(state, events, j);
    lemma_step_goes_forward(before_i, events[i]);
    lemma_step_goes_forward(before_j, events[j]);
    lemma_run_split(state, events.take(j), i + 1);
    assert(events.take(j).take(i + 1) =~= events.take(i + 1));
    lemma_run_goes_forward(after_i, events.take(j).skip(i + 1));
}

/// Every upload uses the token of the duplicate check that was answered just
/// before it.
pub proof fn lemma_upload_uses_answered_token(
    state: StateView,
    events: Seq<EventView>,
    i: int,
)
    requires
        0 <= i < events.len(),
        actions(state, events)[i] is Upload,
    ensures
        events[i] matches EventView::Checked(response) && response.token == Some(
            actions(state, events)[i]->token,
        ),
{
    lemma_action_at(state, events, i);
}

/// The bit-rate gate. A file below the minimum ends the submission at once,
/// and whatever is reported afterwards, no network call is ever made. A file
/// at the minimum or above goes on to the prompts.
pub proof fn lemma_bitrate_gate(bit_rate: u64, later: Seq<EventView>)
    ensures
        bit_rate >= MIN_BITRATE ==> step(StateView::Probing, EventView::Probed { bit_rate }) == (
            StateView::Collecting,
            ActionView::Collect,
        ),
        bit_rate < MIN_BITRATE ==> run(
            StateView::Probing,
            seq![EventView::Probed { bit_rate }] + later,
        ) == StateView::Finished(
            OutcomeView::Failed(SubmitErrorView::BitrateTooLow(BitrateTooLow { bit_rate })),
        ),
        bit_rate < MIN_BITRATE ==> forall|i: int|
            0 <= i <= later.len() ==> !(#[trigger] actions(
                StateView::Probing,
                seq![EventView::Probed { bit_rate }] + later,
            )[i]).is_network_call(),
{
    if bit_rate < MIN_BITRATE {
        let outcome = OutcomeView::Failed(
            SubmitErrorView::BitrateTooLow(BitrateTooLow { bit_rate }),
        );
        lemma_first_step(StateView::Probing, EventView::Probed { bit_rate }, later);
        lemma_finished_stays(outcome, later);
        lemma_run_goes_forward(StateView::Finished(outcome), later);
    }
}

/// A refusal for a terminal reason ends the submission. When the first
/// duplicate check reports any reason but a possible duplicate, the
/// submission is aborted with that reason, and whatever is reported
/// afterwards, neither an upload nor another check is made.
pub proof fn lemma_terminal_reason_stops(
    response: DupeCheckResponseBodyView,
    later: Seq<EventView>,
)
    requires
        !response.success,
        response.error_code matches Some(reason) && reason.is_terminal_spec(),
    ensures
        run(StateView::Checking, seq![EventView::Checked(response)] + later)
            == StateView::Finished(
            OutcomeView::Aborted(Abort::Rejected(response.error_code->0)),
        ),
        forall|i: int|
            0 <= i <= later.len() ==> !(#[trigger] actions(
                StateView::Checking,
                seq![EventView::Checked(response)] + later,
            )[i]).is_network_call(),
{
    let outcome = OutcomeView::Aborted(Abort::Rejected(response.error_code->0));
    lemma_first_step(StateView::Checking, EventView::Checked(response), later);
    lemma_finished_stays(outcome, later);
    lemma_run_goes_forward(StateView::Finished(outcome), later);
}

/// The confirmation gate. When the first duplicate check reports a possible
/// duplicate, the candidates are shown. If the operator declines, the
/// submission is aborted and no network call follows. If the operator
/// accepts, the forced check is made, and it is the only check that follows;
/// when it is answered, well formed and with a token, the upload is made with
/// that token.
pub proof fn lemma_confirmation_gate(
    response: DupeCheckResponseBodyView,
    accepted: bool,
    later: Seq<EventView>,
)
    requires
        !response.success,
        response.error_code == Some(DupeCheckError::PotentialDupe),
        response.result is Some,
    ensures
        ({
            let events = seq![EventView::Checked(response), EventView::Confirmed(accepted)]
                + later;
            let done = actions(StateView::Checking, events);
            &&& done.len() == later.len() + 2
            &&& done[0] == ActionView::Confirm { candidates: response.result->0 }
            &&& !accepted ==> run(StateView::Checking, events) == StateView::Finished(
                OutcomeView::Aborted(Abort::Declined),
            )
            &&& !accepted ==> forall|i: int|
                0 <= i < done.len() ==> !(#[trigger] done[i]).is_network_call()
            &&& accepted ==> done[1] == ActionView::CheckDupe { forced: true }
            &&& accepted ==> forall|i: int|
                0 <= i < done.len() && i != 1 ==> !(#[trigger] done[i] is CheckDupe)
            &&& accepted && later.len() > 0 ==> (later[0] matches EventView::Checked(second)
                ==> second.well_formed() ==> (second.token matches Some(token) ==> done[2]
                == ActionView::Upload { token }))
        }),
{
    let first = EventView::Checked(response);
    let second = EventView::Confirmed(accepted);
    let events = seq![first, second] + later;
    let done = actions(StateView::Checking, events);
    let after = step(StateView::Confirming, second).0;
    assert(events =~= seq![first] + (seq![second] + later));
    lemma_first_step(StateView::Checking, first, seq![second] + later);
    lemma_first_step(StateView::Confirming, second, later);
    lemma_run_goes_forward(after, later);
    if !accepted {
        lemma_finished_stays(OutcomeView::Aborted(Abort::Declined), later);
    } else {
        assert forall|i: int| 0 <= i < done.len() && i != 1 implies !(#[trigger] done[i]
            is CheckDupe) by {
            if i > 1 && done[i] is CheckDupe {
                lemma_calls_in_order(StateView::Checking, events, 1, i);
            }
        }
        if later.len() > 0 {
            assert(later =~= seq![later[0]] + later.drop_first());
            lemma_first_step(StateView::ForceChecking, later[0], later.drop_first());
        }
    }
}

/// A forced check that brings no token is the end. Whether the forced check
/// was made after a success without token or after a confirmation, a
/// well-formed answer without token fails the submission, and no upload
/// follows.
pub proof fn lemma_missing_token_is_fatal(
    response: DupeCheckResponseBodyView,
    later: Seq<EventView>,
)
    requires
        response.well_formed(),
        response.token is None,
    ensures
        run(StateView::ForceChecking, seq![EventView::Checked(response)] + later)
            == StateView::Finished(OutcomeView::Failed(SubmitErrorView::MissingToken)),
        forall|i: int|
            0 <= i <= later.len() ==> !(#[trigger] actions(
                StateView::ForceChecking,
                seq![EventView::Checked(response)] + later,
            )[i]).is_network_call(),
{
    let outcome = OutcomeView::Failed(SubmitErrorView::MissingToken);
    lemma_first_step(StateView::ForceChecking, EventView::Checked(response), later);
    lemma_finished_stays(outcome, later);
    lemma_run_goes_forward(StateView::Finished(outcome), later);
}

/// A failed upload is reported by the storage's own words. Any status but
/// 200 fails the submission; what is reported is the body of the answer,
/// unchanged, and the exit code is not zero. Status 200 is success whatever
/// the body.
pub proof fn lemma_upload_answer(status: u16, body: Seq<char>)
    ensures
        status == HTTP_OK ==> step(
            StateView::Uploading,
            EventView::UploadFinished { status, body },
        ).0 == StateView::Finished(OutcomeView::Uploaded),
        status != HTTP_OK ==> step(StateView::Uploading, EventView::UploadFinished { status, body }).0
            == StateView::Finished(OutcomeView::Failed(SubmitErrorView::Upload(body))),
        OutcomeView::Failed(SubmitErrorView::Upload(body)).text_spec() == body,
        OutcomeView::Failed(SubmitErrorView::Upload(body)).exit_code_spec() != 0,
        OutcomeView::Uploaded.exit_code_spec() == 0,
{
}

} // verus!
