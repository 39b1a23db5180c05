//! The per-candidate pipeline as a state machine.
//!
//! The host owns the outside work: it connects, sends the request and
//! delivers the reply, and after each of these it feeds the outcome back
//! in as an event. `Dispatcher::start` opens the pipeline for one
//! candidate and `step` advances it; both say exactly which state and
//! which action every event leads to. The accounting lemmas state the
//! pipeline's invariant: one candidate, one remote request, one reply —
//! never zero, never more than one — and a failed delivery of the reply
//! changes nothing that was already decided.

use crate::dispatch::call_failure_message;
use crate::dispatch::call_failure_text;
use crate::dispatch::command_candidate_model;
use crate::dispatch::connect_failure_message;
use crate::dispatch::connect_failure_text;
use crate::dispatch::request_model_of;
use crate::dispatch::request_of;
use crate::dispatch::status_of;
use crate::dispatch::success_message;
use crate::dispatch::success_text;
use crate::dispatch::AddSongRequest;
use crate::dispatch::AddSongResponse;
use crate::dispatch::OutcomeModel;
use crate::dispatch::RequestModel;
use crate::dispatch::ResponseModel;
use crate::event::CandidateItem;
use crate::event::CandidateModel;
use vstd::prelude::*;

verus! {

/// Where the pipeline stands for one candidate.
pub enum PipelineState {
    /// Waiting for the outcome of the connection attempt.
    Connecting,
    /// Connected; waiting for the outcome of the remote call.
    Calling,
    /// Status computed and its delivery requested; waiting for the
    /// delivery outcome.
    Reporting { status: String },
    /// Finished, with the status that was reported.
    Finished { status: String },
}

/// Mathematical model of a pipeline state.
pub enum StateModel {
    Connecting,
    Calling,
    Reporting { status: Seq<char> },
    Finished { status: Seq<char> },
}

impl View for PipelineState {
    type V = StateModel;

    open spec fn view(&self) -> StateModel {
        match self {
            PipelineState::Connecting => StateModel::Connecting,
            PipelineState::Calling => StateModel::Calling,
            PipelineState::Reporting { status } => StateModel::Reporting { status: status@ },
            PipelineState::Finished { status } => StateModel::Finished { status: status@ },
        }
    }
}

/// What the host reports back after each piece of outside work.
pub enum PipelineEvent {
    /// The connection attempt succeeded.
    Connected,
    /// The connection attempt failed, with the error's detail.
    ConnectFailed { detail: String },
    /// The remote call returned a response.
    CallSucceeded { response: AddSongResponse },
    /// The remote call failed, with the error's detail.
    CallFailed { detail: String },
    /// The reply reached its target.
    ReportDelivered,
    /// Delivering the reply failed, with the error's detail.
    ReportFailed { detail: String },
}

/// Mathematical model of a pipeline event.
pub enum PipelineEventModel {
    Connected,
    ConnectFailed { detail: Seq<char> },
    CallSucceeded { response: ResponseModel },
    CallFailed { detail: Seq<char> },
    ReportDelivered,
    ReportFailed { detail: Seq<char> },
}

impl View for PipelineEvent {
    type V = PipelineEventModel;

    open spec fn view(&self) -> PipelineEventModel {
        match self {
            PipelineEvent::Connected => PipelineEventModel::Connected,
            PipelineEvent::ConnectFailed { detail } => PipelineEventModel::ConnectFailed {
                detail: detail@,
            },
            PipelineEvent::CallSucceeded { response } => PipelineEventModel::CallSucceeded {
                response: response@,
            },
            PipelineEvent::CallFailed { detail } => PipelineEventModel::CallFailed {
                detail: detail@,
            },
            PipelineEvent::ReportDelivered => PipelineEventModel::ReportDelivered,
            PipelineEvent::ReportFailed { detail } => PipelineEventModel::ReportFailed {
                detail: detail@,
            },
        }
    }
}

/// The outside work the host is asked to perform next.
pub enum PipelineAction {
    /// Connect to the remote endpoint at this address.
    Connect { endpoint: String },
    /// Send this request over the established connection.
    SendRequest { request: AddSongRequest },
    /// Deliver this status line to the reply target.
    SendReport { message: String },
    /// Nothing is left to do for this candidate.
    Done,
}

/// Mathematical model of a pipeline action.
pub enum ActionModel {
    Connect { endpoint: Seq<char> },
    SendRequest { request: RequestModel },
    SendReport { message: Seq<char> },
    Done,
}

impl View for PipelineAction {
    type V = ActionModel;

    open spec fn view(&self) -> ActionModel {
        match self {
            PipelineAction::Connect { endpoint } => ActionModel::Connect { endpoint: endpoint@ },
            PipelineAction::SendRequest { request } => ActionModel::SendRequest {
                request: request@,
            },
            PipelineAction::SendReport { message } => ActionModel::SendReport {
                message: message@,
            },
            PipelineAction::Done => ActionModel::Done,
        }
    }
}

/// Which events a state can answer: exactly the outcomes of the outside
/// work that state is waiting for.
pub open spec fn event_fits(state: StateModel, event: PipelineEventModel) -> bool {
    match state {
        StateModel::Connecting => event is Connected || event is ConnectFailed,
        StateModel::Calling => event is CallSucceeded || event is CallFailed,
        StateModel::Reporting { .. } => event is ReportDelivered || event is ReportFailed,
        StateModel::Finished { .. } => false,
    }
}

/// The transition relation of the pipeline, as a function: next state and
/// next action for each state and fitting event.
pub open spec fn spec_step(
    item: CandidateModel,
    state: StateModel,
    event: PipelineEventModel,
) -> (StateModel, ActionModel)
    recommends
        event_fits(state, event),
{
    match (state, event) {
        (StateModel::Connecting, PipelineEventModel::Connected) => (
            StateModel::Calling,
            ActionModel::SendRequest { request: request_model_of(item) },
        ),
        (StateModel::Connecting, PipelineEventModel::ConnectFailed { detail }) => (
            StateModel::Reporting { status: connect_failure_text(detail) },
            ActionModel::SendReport { message: connect_failure_text(detail) },
        ),
        (StateModel::Calling, PipelineEventModel::CallSucceeded { response }) => (
            StateModel::Reporting {
                status: success_text(response.added_song, response.destination),
            },
            ActionModel::SendReport {
                message: success_text(response.added_song, response.destination),
            },
        ),
        (StateModel::Calling, PipelineEventModel::CallFailed { .. }) => (
            StateModel::Reporting { status: call_failure_text() },
            ActionModel::SendReport { message: call_failure_text() },
        ),
        (StateModel::Reporting { status }, PipelineEventModel::ReportDelivered) => (
            StateModel::Finished { status },
            ActionModel::Done,
        ),
        (StateModel::Reporting { status }, PipelineEventModel::ReportFailed { .. }) => (
            StateModel::Finished { status },
            ActionModel::Done,
        ),
        _ => (state, ActionModel::Done),
    }
}

/// Runs the pipeline for one candidate against a fixed remote endpoint.
/// The endpoint address is threaded in explicitly at construction, never
/// read from a hidden global.
pub struct Dispatcher {
    pub endpoint: String,
}

impl Dispatcher {
    /// A dispatcher for the given endpoint address.
    pub fn new(endpoint: String) -> (d: Dispatcher)
        ensures
            d.endpoint@ == endpoint@,
    {
        Dispatcher { endpoint }
    }

    /// Opens the pipeline for one candidate: the first state waits for the
    /// connection, and the host is asked to connect to the configured
    /// endpoint.
    pub fn start(&self) -> (r: (PipelineState, PipelineAction))
        ensures
            r.0@ == StateModel::Connecting,
            r.1@ == (ActionModel::Connect { endpoint: self.endpoint@ }),
    {
        (PipelineState::Connecting, PipelineAction::Connect { endpoint: self.endpoint.clone() })
    }
}

/// Advances the pipeline for one candidate by one event, exactly as the
/// transition relation says.
pub fn step(item: &CandidateItem, state: PipelineState, event: PipelineEvent) -> (r: (
    PipelineState,
    PipelineAction,
))
    requires
        event_fits(state@, event@),
    ensures
        r.0@ == spec_step(item@, state@, event@).0,
        r.1@ == spec_step(item@, state@, event@).1,
{
    match (state, event) {
        (PipelineState::Connecting, PipelineEvent::Connected) => {
            let request = request_of(item);
            (PipelineState::Calling, PipelineAction::SendRequest { request })
        },
        (PipelineState::Connecting, PipelineEvent::ConnectFailed { detail }) => {
            let message = connect_failure_message(detail.as_str());
            let status = message.clone();
            (PipelineState::Reporting { status }, PipelineAction::SendReport { message })
        },
        (PipelineState::Calling, PipelineEvent::CallSucceeded { response }) => {
            let message = success_message(&response);
            let status = message.clone();
            (PipelineState::Reporting { status }, PipelineAction::SendReport { message })
        },
        (PipelineState::Calling, PipelineEvent::CallFailed { detail: _ }) => {
            let message = call_failure_message();
            let status = message.clone();
            (PipelineState::Reporting { status }, PipelineAction::SendReport { message })
        },
        (PipelineState::Reporting { status }, PipelineEvent::ReportDelivered) => (
            PipelineState::Finished { status },
            PipelineAction::Done,
        ),
        (PipelineState::Reporting { status }, PipelineEvent::ReportFailed { detail: _ }) => (
            PipelineState::Finished { status },
            PipelineAction::Done,
        ),
        (other_state, _) => (other_state, PipelineAction::Done),
    }
}

/// How many replies a state still owes its candidate: one until the
/// status has been handed to the reporter, none afterwards.
pub open spec fn replies_owed(state: StateModel) -> nat {
    match state {
        StateModel::Connecting => 1,
        StateModel::Calling => 1,
        StateModel::Reporting { .. } => 0,
        StateModel::Finished { .. } => 0,
    }
}

/// How many replies an action emits.
pub open spec fn reply_count(action: ActionModel) -> nat {
    match action {
        ActionModel::SendReport { .. } => 1,
        _ => 0,
    }
}

/// How many remote requests a state may still emit: one before the
/// connection outcome is decided, none afterwards.
pub open spec fn requests_owed(state: StateModel) -> nat {
    match state {
        StateModel::Connecting => 1,
        _ => 0,
    }
}

/// How many remote requests an action emits.
pub open spec fn request_count(action: ActionModel) -> nat {
    match action {
        ActionModel::SendRequest { .. } => 1,
        _ => 0,
    }
}

/// One step keeps the pipeline's books straight: the reply a state owed,
/// the emitted action plus the next state still cover exactly — no reply
/// is lost, none is duplicated — and a remote request is emitted at most
/// once (none when the connection fails).
pub proof fn lemma_step_accounting(
    item: CandidateModel,
    state: StateModel,
    event: PipelineEventModel,
)
    requires
        event_fits(state, event),
    ensures
        replies_owed(state) == reply_count(spec_step(item, state, event).1) + replies_owed(
            spec_step(item, state, event).0,
        ),
        request_count(spec_step(item, state, event).1) + requests_owed(
            spec_step(item, state, event).0,
        ) <= requests_owed(state),
{
}

/// Reporter isolation: whatever the delivery outcome, the pipeline moves
/// to the finished state with the status it had already computed, and asks
/// for nothing further — a delivery failure neither alters nor re-triggers
/// the dispatch outcome.
pub proof fn lemma_reporter_isolation(
    item: CandidateModel,
    status: Seq<char>,
    event: PipelineEventModel,
)
    requires
        event is ReportDelivered || event is ReportFailed,
    ensures
        spec_step(item, StateModel::Reporting { status }, event).0 == (StateModel::Finished {
            status,
        }),
        spec_step(item, StateModel::Reporting { status }, event).1 == ActionModel::Done,
{
}

/// The state a run of events leads to from a starting state.
pub open spec fn run_state(
    item: CandidateModel,
    state: StateModel,
    events: Seq<PipelineEventModel>,
) -> StateModel
    decreases events.len(),
{
    if events.len() == 0 {
        state
    } else {
        run_state(item, spec_step(item, state, events.first()).0, events.drop_first())
    }
}

/// A run is valid when every event fits the state the run has reached.
pub open spec fn run_valid(
    item: CandidateModel,
    state: StateModel,
    events: Seq<PipelineEventModel>,
) -> bool
    decreases events.len(),
{
    if events.len() == 0 {
        true
    } else {
        event_fits(state, events.first()) && run_valid(
            item,
            spec_step(item, state, events.first()).0,
            events.drop_first(),
        )
    }
}

/// How many replies a run of events emits.
pub open spec fn replies_sent(
    item: CandidateModel,
    state: StateModel,
    events: Seq<PipelineEventModel>,
) -> nat
    decreases events.len(),
{
    if events.len() == 0 {
        0
    } else {
        reply_count(spec_step(item, state, events.first()).1) + replies_sent(
            item,
            spec_step(item, state, events.first()).0,
            events.drop_first(),
        )
    }
}

/// How many remote requests a run of events emits.
pub open spec fn requests_sent(
    item: CandidateModel,
    state: StateModel,
    events: Seq<PipelineEventModel>,
) -> nat
    decreases events.len(),
{
    if events.len() == 0 {
        0
    } else {
        request_count(spec_step(item, state, events.first()).1) + requests_sent(
            item,
            spec_step(item, state, events.first()).0,
            events.drop_first(),
        )
    }
}

/// Over a whole valid run, the step-level books add up: the replies the
/// starting state owed are exactly the replies emitted plus those the
/// final state still owes, and requests never exceed what the starting
/// state allowed.
pub proof fn lemma_run_accounting(
    item: CandidateModel,
    state: StateModel,
    events: Seq<PipelineEventModel>,
)
    requires
        run_valid(item, state, events),
    ensures
        replies_sent(item, state, events) + replies_owed(run_state(item, state, events))
            == replies_owed(state),
        requests_sent(item, state, events) + requests_owed(run_state(item, state, events))
            <= requests_owed(state),
    decreases events.len(),
{
    if events.len() > 0 {
        lemma_step_accounting(item, state, events.first());
        lemma_run_accounting(item, spec_step(item, state, events.first()).0, events.drop_first());
    }
}

/// The pipeline's central invariant: a complete run for one candidate —
/// from the connection attempt to the finished state — emits exactly one
/// reply, never zero and never more, and at most one remote request.
pub proof fn lemma_exactly_one_reply(item: CandidateModel, events: Seq<PipelineEventModel>)
    requires
        run_valid(item, StateModel::Connecting, events),
        run_state(item, StateModel::Connecting, events) is Finished,
    ensures
        replies_sent(item, StateModel::Connecting, events) == 1,
        requests_sent(item, StateModel::Connecting, events) <= 1,
{
    lemma_run_accounting(item, StateModel::Connecting, events);
}

/// The events the host feeds the pipeline when one dispatch turns out a
/// given way: the connection and call outcomes in order, then the
/// delivery outcome of the one reply.
pub open spec fn events_for(
    outcome: OutcomeModel,
    delivery: PipelineEventModel,
) -> Seq<PipelineEventModel> {
    match outcome {
        OutcomeModel::ConnectFailed { detail } => seq![
            PipelineEventModel::ConnectFailed { detail },
            delivery,
        ],
        OutcomeModel::CallFailed { detail } => seq![
            PipelineEventModel::Connected,
            PipelineEventModel::CallFailed { detail },
            delivery,
        ],
        OutcomeModel::Succeeded { response } => seq![
            PipelineEventModel::Connected,
            PipelineEventModel::CallSucceeded { response },
            delivery,
        ],
    }
}

/// Dispatch and report, end to end: however one dispatch turns out, and
/// however the delivery of its reply goes, the run the host drives for it
/// is valid and finishes with exactly that outcome's status line.
pub proof fn lemma_run_ends_with_outcome_status(
    item: CandidateModel,
    outcome: OutcomeModel,
    delivery: PipelineEventModel,
)
    requires
        delivery is ReportDelivered || delivery is ReportFailed,
    ensures
        run_valid(item, StateModel::Connecting, events_for(outcome, delivery)),
        run_state(item, StateModel::Connecting, events_for(outcome, delivery))
            == (StateModel::Finished { status: status_of(outcome) }),
{
    reveal_with_fuel(run_valid, 4);
    reveal_with_fuel(run_state, 4);
    let events = events_for(outcome, delivery);
    match outcome {
        OutcomeModel::ConnectFailed { detail } => {
            let rest = seq![delivery];
            assert(events.drop_first() =~= rest);
            assert(rest.drop_first() =~= Seq::<PipelineEventModel>::empty());
        },
        OutcomeModel::CallFailed { detail } => {
            let rest = seq![PipelineEventModel::CallFailed { detail }, delivery];
            let last = seq![delivery];
            assert(events.drop_first() =~= rest);
            assert(rest.drop_first() =~= last);
            assert(last.drop_first() =~= Seq::<PipelineEventModel>::empty());
        },
        OutcomeModel::Succeeded { response } => {
            let rest = seq![PipelineEventModel::CallSucceeded { response }, delivery];
            let last = seq![delivery];
            assert(events.drop_first() =~= rest);
            assert(rest.drop_first() =~= last);
            assert(last.drop_first() =~= Seq::<PipelineEventModel>::empty());
        },
    }
}

/// Command path equivalence: the command entry point's candidate for a URL
/// steps the pipeline exactly as an event-filtered candidate with the same
/// URL does.
pub proof fn lemma_command_step_equivalence(
    url: Seq<char>,
    item: CandidateModel,
    state: StateModel,
    event: PipelineEventModel,
)
    requires
        item == (CandidateModel { source_url: url, overwrite: true }),
    ensures
        spec_step(command_candidate_model(url), state, event) == spec_step(item, state, event),
{
}

} // verus!
