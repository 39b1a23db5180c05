use itg_buddy::dispatch::command_candidate;
use itg_buddy::dispatch::pong_message;
use itg_buddy::dispatch::request_of;
use itg_buddy::dispatch::status_message;
use itg_buddy::dispatch::status_messages;
use itg_buddy::dispatch::AddSongResponse;
use itg_buddy::dispatch::DispatchOutcome;
use itg_buddy::event::CandidateItem;
use itg_buddy::pipeline::step;
use itg_buddy::pipeline::Dispatcher;
use itg_buddy::pipeline::PipelineAction;
use itg_buddy::pipeline::PipelineEvent;
use itg_buddy::pipeline::PipelineState;

fn candidate(url: &str) -> CandidateItem {
    CandidateItem { source_url: url.to_string(), overwrite: true }
}

fn success(added: &str, destination: &str) -> DispatchOutcome {
    DispatchOutcome::Succeeded {
        response: AddSongResponse {
            added_song: added.to_string(),
            destination: destination.to_string(),
        },
    }
}

#[test]
fn success_status_names_song_and_destination() {
    let s = status_message(&success("Song A", "Pack/Song A"));
    assert_eq!(s, "Added Song A to Pack/Song A.");
}

#[test]
fn connect_failure_status_carries_detail() {
    let o = DispatchOutcome::ConnectFailed { detail: "connection refused".to_string() };
    let s = status_message(&o);
    assert_eq!(s, "Couldn't connect to itg endpoint: ```connection refused```");
}

#[test]
fn call_failure_status_is_generic() {
    let o = DispatchOutcome::CallFailed { detail: "deadline exceeded".to_string() };
    let s = status_message(&o);
    assert_eq!(s, "Error adding song.");
}

#[test]
fn failing_candidate_leaves_neighbours_untouched() {
    let outcomes = vec![
        DispatchOutcome::CallFailed { detail: "remote fault".to_string() },
        success("Song B", "Pack/Song B"),
        success("Song C", "Pack/Song C"),
    ];
    let statuses = status_messages(&outcomes);
    assert_eq!(statuses.len(), 3);
    assert_eq!(statuses[0], "Error adding song.");
    assert_eq!(statuses[1], "Added Song B to Pack/Song B.");
    assert_eq!(statuses[2], "Added Song C to Pack/Song C.");
}

#[test]
fn request_mirrors_candidate() {
    let item = candidate("http://example.com/song.zip");
    let req = request_of(&item);
    assert_eq!(req.path_or_url, "http://example.com/song.zip");
    assert!(req.overwrite);
}

#[test]
fn command_candidate_matches_event_candidate() {
    let from_command = command_candidate("http://example.com/song.zip".to_string());
    let from_event = candidate("http://example.com/song.zip");
    assert_eq!(from_command.source_url, from_event.source_url);
    assert_eq!(from_command.overwrite, from_event.overwrite);
    let s1 = status_message(&success("Song A", "Pack/Song A"));
    let s2 = status_message(&success("Song A", "Pack/Song A"));
    assert_eq!(s1, s2);
}

#[test]
fn pong_echoes_optional_message() {
    assert_eq!(pong_message(None), "Pong! ");
    let m = "hello".to_string();
    assert_eq!(pong_message(Some(&m)), "Pong! hello");
}

#[test]
fn pipeline_walks_the_success_path() {
    let dispatcher = Dispatcher::new("http://localhost:50051".to_string());
    let item = candidate("http://files/a.zip");

    let (state, action) = dispatcher.start();
    assert!(matches!(state, PipelineState::Connecting));
    match action {
        PipelineAction::Connect { endpoint } => assert_eq!(endpoint, "http://localhost:50051"),
        _ => panic!("expected a connect action"),
    }

    let (state, action) = step(&item, state, PipelineEvent::Connected);
    assert!(matches!(state, PipelineState::Calling));
    match action {
        PipelineAction::SendRequest { request } => {
            assert_eq!(request.path_or_url, "http://files/a.zip");
            assert!(request.overwrite);
        },
        _ => panic!("expected a request action"),
    }

    let response = AddSongResponse {
        added_song: "Song A".to_string(),
        destination: "Pack/Song A".to_string(),
    };
    let (state, action) = step(&item, state, PipelineEvent::CallSucceeded { response });
    match &state {
        PipelineState::Reporting { status } => assert_eq!(status, "Added Song A to Pack/Song A."),
        _ => panic!("expected a reporting state"),
    }
    match action {
        PipelineAction::SendReport { message } => {
            assert_eq!(message, "Added Song A to Pack/Song A.")
        },
        _ => panic!("expected a report action"),
    }

    let (state, action) = step(&item, state, PipelineEvent::ReportDelivered);
    match state {
        PipelineState::Finished { status } => assert_eq!(status, "Added Song A to Pack/Song A."),
        _ => panic!("expected a finished state"),
    }
    assert!(matches!(action, PipelineAction::Done));
}

#[test]
fn pipeline_reports_connection_failure_and_stops() {
    let item = candidate("http://files/a.zip");
    let (state, action) = step(
        &item,
        PipelineState::Connecting,
        PipelineEvent::ConnectFailed { detail: "connection refused".to_string() },
    );
    let expected = "Couldn't connect to itg endpoint: ```connection refused```";
    match &state {
        PipelineState::Reporting { status } => assert_eq!(status, expected),
        _ => panic!("expected a reporting state"),
    }
    match action {
        PipelineAction::SendReport { message } => assert_eq!(message, expected),
        _ => panic!("expected a report action"),
    }
}

#[test]
fn delivery_failure_keeps_the_computed_status() {
    let item = candidate("http://files/a.zip");
    let (state, action) = step(
        &item,
        PipelineState::Reporting { status: "Added Song A to Pack/Song A.".to_string() },
        PipelineEvent::ReportFailed { detail: "gateway closed".to_string() },
    );
    match state {
        PipelineState::Finished { status } => assert_eq!(status, "Added Song A to Pack/Song A."),
        _ => panic!("expected a finished state"),
    }
    assert!(matches!(action, PipelineAction::Done));
}

#[test]
fn call_failure_reports_generic_message() {
    let item = candidate("http://files/a.zip");
    let (state, action) = step(
        &item,
        PipelineState::Calling,
        PipelineEvent::CallFailed { detail: "stream reset".to_string() },
    );
    match &state {
        PipelineState::Reporting { status } => assert_eq!(status, "Error adding song."),
        _ => panic!("expected a reporting state"),
    }
    match action {
        PipelineAction::SendReport { message } => assert_eq!(message, "Error adding song."),
        _ => panic!("expected a report action"),
    }
}
