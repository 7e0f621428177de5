use blackboard::PipelineError;
use blackboard::PipelineState;
use blackboard::PipelineTarget;
use blackboard::RecordingController;
use blackboard::StartOutcome;
use blackboard::StopOutcome;
use blackboard::build_graph;
use blackboard::location_is_valid;
use blackboard::serialize_graph;

#[test]
fn network_launch_text_is_exact() {
    let r = RecordingController::new();
    let target = PipelineTarget::Network(String::from("rtmp://example.com/live/streamkey"));
    let text = r.plan_start(&target).expect("valid target");
    assert_eq!(
        text,
        "videotestsrc ! videoconvert ! vp8enc ! queue ! mux. \
         pulsesrc ! audioconvert ! audioresample ! opusenc ! queue ! mux. \
         webmmux streamable=true name=mux ! rtmpsink location=rtmp://example.com/live/streamkey"
    );
}

#[test]
fn file_launch_text_is_exact() {
    let r = RecordingController::new();
    let target = PipelineTarget::File(String::from("output.webm"));
    let text = r.plan_start(&target).expect("valid target");
    assert_eq!(
        text,
        "videotestsrc ! videoconvert ! vp8enc ! queue ! mux. \
         pulsesrc ! audioconvert ! audioresample ! opusenc ! queue ! mux. \
         webmmux streamable=true name=mux ! filesink location=output.webm sync=false"
    );
}

#[test]
fn bad_url_is_rejected_and_state_stays_stopped() {
    // A URL with spaces never reaches the media subsystem.
    let mut r = RecordingController::new();
    let bad = PipelineTarget::Network(String::from("rtmp://bad urlwith space"));
    assert_eq!(r.plan_start(&bad), Err(PipelineError::ConfigurationError));
    assert_eq!(r.state, PipelineState::Stopped);

    // A failed attempt leaves nothing behind: a later valid start succeeds.
    let good = PipelineTarget::File(String::from("/tmp/out.webm"));
    let planned = r.plan_start(&good);
    assert!(planned.is_ok());
    assert_eq!(r.confirm_start(StartOutcome::Launched), Ok(()));
    assert_eq!(r.state, PipelineState::Playing);
}

#[test]
fn empty_location_is_rejected() {
    let r = RecordingController::new();
    let bad = PipelineTarget::File(String::new());
    assert_eq!(r.plan_start(&bad), Err(PipelineError::ConfigurationError));
}

#[test]
fn second_stop_is_a_no_op() {
    let mut r = RecordingController::new();
    let target = PipelineTarget::File(String::from("/tmp/out.webm"));
    assert!(r.plan_start(&target).is_ok());
    assert_eq!(r.confirm_start(StartOutcome::Launched), Ok(()));
    assert_eq!(r.state, PipelineState::Playing);

    assert!(r.stop());
    assert_eq!(r.confirm_stop(StopOutcome::Halted), Ok(()));
    assert_eq!(r.state, PipelineState::Stopped);

    // Stopping again: no live graph, nothing to halt, no error.
    assert!(!r.stop());
    assert_eq!(r.state, PipelineState::Stopped);
}

#[test]
fn start_while_playing_is_rejected() {
    let mut r = RecordingController::new();
    let target = PipelineTarget::File(String::from("/tmp/out.webm"));
    assert!(r.plan_start(&target).is_ok());
    assert_eq!(r.confirm_start(StartOutcome::Launched), Ok(()));

    let second = PipelineTarget::Network(String::from("rtmp://example.com/live/streamkey"));
    assert_eq!(r.plan_start(&second), Err(PipelineError::AlreadyRecording));
    assert_eq!(r.state, PipelineState::Playing);
}

#[test]
fn each_launch_failure_surfaces_its_error() {
    let mut r = RecordingController::new();
    assert_eq!(
        r.confirm_start(StartOutcome::InitFailed),
        Err(PipelineError::SubsystemInitError)
    );
    assert_eq!(r.state, PipelineState::Stopped);
    assert_eq!(
        r.confirm_start(StartOutcome::ConstructionFailed),
        Err(PipelineError::GraphConstructionError)
    );
    assert_eq!(r.state, PipelineState::Stopped);
    assert_eq!(
        r.confirm_start(StartOutcome::TransitionFailed),
        Err(PipelineError::StateTransitionError)
    );
    assert_eq!(r.state, PipelineState::Stopped);
}

#[test]
fn failed_halt_still_leaves_controller_stopped() {
    let mut r = RecordingController::new();
    let target = PipelineTarget::File(String::from("/tmp/out.webm"));
    assert!(r.plan_start(&target).is_ok());
    assert_eq!(r.confirm_start(StartOutcome::Launched), Ok(()));
    assert!(r.stop());
    assert_eq!(
        r.confirm_stop(StopOutcome::HaltFailed),
        Err(PipelineError::StateTransitionError)
    );
    assert_eq!(r.state, PipelineState::Stopped);
}

#[test]
fn location_validity_rules() {
    assert!(location_is_valid(&String::from("rtmp://example.com/live/k")));
    assert!(location_is_valid(&String::from("/tmp/out.webm")));
    assert!(!location_is_valid(&String::from("")));
    assert!(!location_is_valid(&String::from("has space")));
    assert!(!location_is_valid(&String::from(" ")));
}

#[test]
fn built_graph_matches_target() {
    let target = PipelineTarget::Network(String::from("rtmp://host/app"));
    let g = build_graph(&target).expect("valid");
    assert_eq!(g.location, "rtmp://host/app");
    let text = serialize_graph(&g);
    assert!(text.ends_with("rtmpsink location=rtmp://host/app"));

    let bad = PipelineTarget::Network(String::from("rtmp://bad urlwith space"));
    assert!(build_graph(&bad).is_err());
}
