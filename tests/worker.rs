use stream_probe::classify::{DomainId, ErrorClass, Reason};
use stream_probe::worker::{Action, Input, Phase, ProbeOutcome, Target, Worker};

fn target(uri: &str, username: Option<&str>, password: Option<&str>) -> Target {
    Target {
        uri: uri.to_string(),
        username: username.map(|s| s.to_string()),
        password: password.map(|s| s.to_string()),
    }
}

fn streaming(t: &Target) -> Worker {
    let mut w = Worker::new(t, 0);
    let mut a = w.step(Input::Built);
    if let Action::ApplyCredentials(_, _) = a {
        a = w.step(Input::CredentialsApplied);
    }
    assert_eq!(a, Action::Activate);
    assert_eq!(w.step(Input::Activated), Action::AwaitEvent);
    assert_eq!(w.phase, Phase::Streaming);
    w
}

fn stream_error(code: i32) -> Input {
    Input::Error(DomainId::Name("gst-stream-error-quark".to_string()), code, "lost".to_string())
}

#[test]
fn new_worker_is_created() {
    let t = target("rtsp://ok.host/stream", None, None);
    let w = Worker::new(&t, 7);
    assert_eq!(w.seq, 7);
    assert_eq!(w.phase, Phase::Created);
    assert_eq!(w.outcome, None);
    assert!(!w.stopping);
    assert_eq!(w.credentials, None);
}

#[test]
fn end_of_stream_completes_and_stops_once() {
    let t = target("rtsp://ok.host/stream", None, None);
    let mut w = streaming(&t);
    let mut acts = Vec::new();
    acts.push(w.step(Input::DataReady));
    acts.push(w.step(Input::Pulled));
    acts.push(w.step(Input::Other));
    acts.push(w.step(Input::EndOfStream));
    acts.push(w.step(stream_error(1)));
    acts.push(w.step(Input::EndOfStream));
    acts.push(w.step(Input::Deactivated));
    acts.push(w.step(Input::Deactivated));
    assert_eq!(
        acts,
        vec![
            Action::Pull,
            Action::AwaitEvent,
            Action::AwaitEvent,
            Action::Deactivate,
            Action::Idle,
            Action::Idle,
            Action::Finish,
            Action::Finish,
        ]
    );
    assert_eq!(w.outcome, Some(ProbeOutcome::Completed));
    assert_eq!(w.phase, Phase::Terminated);
    assert!(!w.stopping);
    assert_eq!(w.teardown_error, None);
}

#[test]
fn end_of_stream_while_draining_completes() {
    let t = target("rtsp://ok.host/stream", None, None);
    let mut w = streaming(&t);
    assert_eq!(w.step(Input::DataReady), Action::Pull);
    assert_eq!(w.phase, Phase::Draining);
    assert_eq!(w.step(Input::EndOfStream), Action::Deactivate);
    assert_eq!(w.step(Input::DeactivationFailed("busy".to_string())), Action::Finish);
    assert_eq!(w.outcome, Some(ProbeOutcome::Completed));
    assert_eq!(w.teardown_error, Some("busy".to_string()));
}

#[test]
fn error_fails_with_class_and_stops_once_even_if_stop_fails() {
    let t = target("rtsp://ok.host/stream", None, None);
    let mut w = streaming(&t);
    assert_eq!(w.step(stream_error(3)), Action::Deactivate);
    assert_eq!(w.step(Input::EndOfStream), Action::Idle);
    assert_eq!(w.step(Input::DeactivationFailed("stuck".to_string())), Action::Finish);
    assert_eq!(w.step(Input::EndOfStream), Action::Finish);
    assert_eq!(
        w.outcome,
        Some(ProbeOutcome::Failed(ErrorClass::Retriable(Reason::StreamError), "lost".to_string()))
    );
    assert_ne!(w.outcome, Some(ProbeOutcome::Completed));
    assert_eq!(w.teardown_error, Some("stuck".to_string()));
}

#[test]
fn unrecognised_error_fails_undefined() {
    let t = target("rtsp://ok.host/stream", None, None);
    let mut w = streaming(&t);
    let e = Input::Error(DomainId::Number(99), 2, "odd".to_string());
    assert_eq!(w.step(e), Action::Deactivate);
    assert_eq!(w.step(Input::Deactivated), Action::Finish);
    assert_eq!(w.outcome, Some(ProbeOutcome::Failed(ErrorClass::Undefined, "odd".to_string())));
}

#[test]
fn credentials_applied_when_both_present() {
    let t = target("rtsp://ok.host/stream", Some("u"), Some("p"));
    let mut w = Worker::new(&t, 0);
    assert_eq!(w.step(Input::Built), Action::ApplyCredentials("u".to_string(), "p".to_string()));
    assert_eq!(w.step(Input::CredentialsApplied), Action::Activate);
}

#[test]
fn credentials_ignored_when_only_username() {
    let t = target("rtsp://ok.host/stream", Some("u"), None);
    let mut w = Worker::new(&t, 0);
    assert_eq!(w.credentials, None);
    assert_eq!(w.step(Input::Built), Action::Activate);
}

#[test]
fn credentials_ignored_when_only_password() {
    let t = target("rtsp://ok.host/stream", None, Some("p"));
    let mut w = Worker::new(&t, 0);
    assert_eq!(w.step(Input::Built), Action::Activate);
}

#[test]
fn no_credentials_activates_directly() {
    let t = target("rtsp://ok.host/stream", None, None);
    let mut w = Worker::new(&t, 0);
    assert_eq!(w.step(Input::Built), Action::Activate);
}

#[test]
fn target_credentials_need_both() {
    assert_eq!(
        target("a", Some("u"), Some("p")).credentials(),
        Some(("u".to_string(), "p".to_string()))
    );
    assert_eq!(target("a", Some("u"), None).credentials(), None);
    assert_eq!(target("a", None, Some("p")).credentials(), None);
    assert_eq!(target("a", None, None).credentials(), None);
}

#[test]
fn build_failure_ends_without_stop() {
    let t = target("not a uri", None, None);
    let mut w = Worker::new(&t, 0);
    assert_eq!(w.step(Input::BuildFailed("no element".to_string())), Action::Finish);
    assert_eq!(w.phase, Phase::Terminated);
    assert!(!w.stopping);
    assert_eq!(w.outcome, Some(ProbeOutcome::SetupFailed("no element".to_string())));
    assert_eq!(w.step(Input::Deactivated), Action::Finish);
}

#[test]
fn activation_failure_stops_the_session() {
    let t = target("rtsp://ok.host/stream", None, None);
    let mut w = Worker::new(&t, 0);
    assert_eq!(w.step(Input::Built), Action::Activate);
    assert_eq!(w.step(Input::ActivationFailed("refused".to_string())), Action::Deactivate);
    assert!(w.stopping);
    assert_eq!(w.step(Input::Deactivated), Action::Finish);
    assert_eq!(w.outcome, Some(ProbeOutcome::SetupFailed("refused".to_string())));
}

#[test]
fn timeout_while_streaming() {
    let t = target("rtsp://ok.host/stream", None, None);
    let mut w = streaming(&t);
    assert_eq!(w.step(Input::TimedOut), Action::Deactivate);
    assert_eq!(w.step(Input::Deactivated), Action::Finish);
    assert_eq!(w.outcome, Some(ProbeOutcome::TimedOut));
}

#[test]
fn unexpected_inputs_are_dropped() {
    let t = target("rtsp://ok.host/stream", None, None);
    let mut w = Worker::new(&t, 0);
    assert_eq!(w.step(Input::EndOfStream), Action::Idle);
    assert_eq!(w.step(Input::Activated), Action::Idle);
    assert_eq!(w.phase, Phase::Created);
    assert_eq!(w.step(Input::Built), Action::Activate);
    assert_eq!(w.step(Input::EndOfStream), Action::Idle);
    assert_eq!(w.step(Input::DataReady), Action::Idle);
    assert_eq!(w.phase, Phase::Configuring);
    assert_eq!(w.outcome, None);
}

#[test]
fn outcome_duplicate_is_equal() {
    let o = ProbeOutcome::Failed(ErrorClass::Irretriable(Reason::InvalidHost), "m".to_string());
    assert_eq!(o.duplicate(), o);
    assert_eq!(ProbeOutcome::SetupFailed("x".to_string()).duplicate(), ProbeOutcome::SetupFailed("x".to_string()));
}
