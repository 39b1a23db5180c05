//! Dispatch decisions: the wire shapes of the remote add-song operation,
//! the request derived from a candidate item, and the status line each
//! possible outcome of one dispatch maps to.
//!
//! The status of a candidate is a function of that candidate's outcome
//! alone — a failure among the other candidates of the same event never
//! touches it — and the command entry point dispatches exactly the same
//! candidate shape the event filter produces. The step-by-step pipeline
//! that drives these decisions lives in the pipeline module.

use crate::event::CandidateItem;
use crate::event::CandidateModel;
use vstd::prelude::*;
use vstd::string::StringExecFns;

verus! {

/// Wire-level request to the remote song-management service.
pub struct AddSongRequest {
    pub path_or_url: String,
    pub overwrite: bool,
}

/// Mathematical model of a request.
pub struct RequestModel {
    pub path_or_url: Seq<char>,
    pub overwrite: bool,
}

impl View for AddSongRequest {
    type V = RequestModel;

    open spec fn view(&self) -> RequestModel {
        RequestModel { path_or_url: self.path_or_url@, overwrite: self.overwrite }
    }
}

/// Successful response of the remote add-song operation.
pub struct AddSongResponse {
    pub added_song: String,
    pub destination: String,
}

/// Mathematical model of a response.
pub struct ResponseModel {
    pub added_song: Seq<char>,
    pub destination: Seq<char>,
}

impl View for AddSongResponse {
    type V = ResponseModel;

    open spec fn view(&self) -> ResponseModel {
        ResponseModel { added_song: self.added_song@, destination: self.destination@ }
    }
}

/// The request derived from a candidate item: same URL, same overwrite
/// flag.
pub open spec fn request_model_of(item: CandidateModel) -> RequestModel {
    RequestModel { path_or_url: item.source_url, overwrite: item.overwrite }
}

/// Builds the wire request for one candidate item.
pub fn request_of(item: &CandidateItem) -> (r: AddSongRequest)
    ensures
        r@ == request_model_of(item@),
{
    AddSongRequest { path_or_url: item.source_url.clone(), overwrite: item.overwrite }
}

/// The single candidate item the command entry point dispatches for a
/// user-supplied URL: that URL, with overwrite set.
pub open spec fn command_candidate_model(url: Seq<char>) -> CandidateModel {
    CandidateModel { source_url: url, overwrite: true }
}

/// Builds the candidate item for the command entry point from its URL
/// argument.
pub fn command_candidate(url: String) -> (c: CandidateItem)
    ensures
        c@ == command_candidate_model(url@),
{
    CandidateItem { source_url: url, overwrite: true }
}

/// The acknowledgement of the diagnostic command, echoing the optional
/// message after the canned greeting.
pub open spec fn pong_text(msg: Option<Seq<char>>) -> Seq<char> {
    match msg {
        Option::Some(m) => "Pong! "@ + m,
        Option::None => "Pong! "@,
    }
}

/// Builds the diagnostic command's acknowledgement.
pub fn pong_message(msg: Option<&String>) -> (s: String)
    ensures
        s@ == pong_text(
            match msg {
                Option::Some(m) => Option::Some(m@),
                Option::None => Option::None,
            },
        ),
{
    let mut s = String::from_str("Pong! ");
    match msg {
        Option::Some(m) => {
            s.append(m.as_str());
        },
        Option::None => {
        },
    }
    s
}

/// The status line for a successful dispatch, naming the added song and
/// where it went.
pub open spec fn success_text(added_song: Seq<char>, destination: Seq<char>) -> Seq<char> {
    "Added "@ + added_song + " to "@ + destination + "."@
}

/// The status line when the remote endpoint cannot be reached; it carries
/// the connection error's detail.
pub open spec fn connect_failure_text(detail: Seq<char>) -> Seq<char> {
    "Couldn't connect to itg endpoint: ```"@ + detail + "```"@
}

/// The status line when the call reached the service but failed; the
/// detail is only logged, not shown.
pub open spec fn call_failure_text() -> Seq<char> {
    "Error adding song."@
}

/// Builds the success status line from a response.
pub fn success_message(response: &AddSongResponse) -> (s: String)
    ensures
        s@ == success_text(response@.added_song, response@.destination),
{
    let mut s = String::from_str("Added ");
    s.append(response.added_song.as_str());
    s.append(" to ");
    s.append(response.destination.as_str());
    s.append(".");
    s
}

/// Builds the connection-failure status line around the error detail.
pub fn connect_failure_message(detail: &str) -> (s: String)
    ensures
        s@ == connect_failure_text(detail@),
{
    let mut s = String::from_str("Couldn't connect to itg endpoint: ```");
    s.append(detail);
    s.append("```");
    s
}

/// Builds the call-failure status line.
pub fn call_failure_message() -> (s: String)
    ensures
        s@ == call_failure_text(),
{
    String::from_str("Error adding song.")
}

/// The summarised outcome of dispatching one candidate: the connection
/// failed, the call failed, or the call succeeded with a response.
pub enum DispatchOutcome {
    ConnectFailed { detail: String },
    CallFailed { detail: String },
    Succeeded { response: AddSongResponse },
}

/// Mathematical model of a dispatch outcome.
pub enum OutcomeModel {
    ConnectFailed { detail: Seq<char> },
    CallFailed { detail: Seq<char> },
    Succeeded { response: ResponseModel },
}

impl View for DispatchOutcome {
    type V = OutcomeModel;

    open spec fn view(&self) -> OutcomeModel {
        match self {
            DispatchOutcome::ConnectFailed { detail } => OutcomeModel::ConnectFailed {
                detail: detail@,
            },
            DispatchOutcome::CallFailed { detail } => OutcomeModel::CallFailed { detail: detail@ },
            DispatchOutcome::Succeeded { response } => OutcomeModel::Succeeded {
                response: response@,
            },
        }
    }
}

/// The status line for each possible outcome of one dispatch.
pub open spec fn status_of(o: OutcomeModel) -> Seq<char> {
    match o {
        OutcomeModel::ConnectFailed { detail } => connect_failure_text(detail),
        OutcomeModel::CallFailed { detail } => call_failure_text(),
        OutcomeModel::Succeeded { response } => success_text(
            response.added_song,
            response.destination,
        ),
    }
}

/// Maps one dispatch outcome to its status line.
pub fn status_message(o: &DispatchOutcome) -> (s: String)
    ensures
        s@ == status_of(o@),
{
    match o {
        DispatchOutcome::ConnectFailed { detail } => connect_failure_message(detail.as_str()),
        DispatchOutcome::CallFailed { detail: _ } => call_failure_message(),
        DispatchOutcome::Succeeded { response } => success_message(response),
    }
}

/// The status lines of a sequence of outcomes, each depending on its own
/// outcome alone.
pub open spec fn statuses_of(outcomes: Seq<OutcomeModel>) -> Seq<Seq<char>> {
    outcomes.map_values(|o: OutcomeModel| status_of(o))
}

/// Maps every outcome of one event to its status line, in order. A failure
/// among the outcomes never disturbs the neighbouring ones.
pub fn status_messages(outcomes: &Vec<DispatchOutcome>) -> (v: Vec<String>)
    ensures
        v@.len() == outcomes@.len(),
        forall|i: int| 0 <= i < v@.len() ==> v@[i]@ == status_of(outcomes@[i]@),
{
    let mut v: Vec<String> = Vec::new();
    let n = outcomes.len();
    let mut i: usize = 0;
    while i < n
        invariant
            n == outcomes.len(),
            i <= n,
            v@.len() == i,
            forall|j: int| 0 <= j < i ==> v@[j]@ == status_of(outcomes@[j]@),
        decreases n - i,
    {
        let s = status_message(&outcomes[i]);
        v.push(s);
        i += 1;
    }
    v
}

/// Dispatch isolation: the status line of one candidate depends on that
/// candidate's outcome alone, so a failure among the other candidates of
/// the same event leaves it unchanged.
pub proof fn lemma_dispatch_isolation(a: Seq<OutcomeModel>, b: Seq<OutcomeModel>, i: int)
    requires
        a.len() == b.len(),
        0 <= i < a.len(),
        a[i] == b[i],
    ensures
        statuses_of(a)[i] == statuses_of(b)[i],
{
}

/// Command path equivalence: for a given URL, the command entry point
/// dispatches exactly the candidate item `{ source_url: url, overwrite:
/// true }`, so it sends the same wire request — and, the status line being
/// a function of the outcome alone, the same outcome yields the same
/// status on both paths.
pub proof fn lemma_command_path_equivalence(url: Seq<char>, item: CandidateModel)
    requires
        item == (CandidateModel { source_url: url, overwrite: true }),
    ensures
        command_candidate_model(url) == item,
        request_model_of(command_candidate_model(url)) == request_model_of(item),
{
}

} // verus!
