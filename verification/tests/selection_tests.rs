use chromatic::selection::{after_attempt, setup, switch_stream, Attempt, Outcome, Verdict};
use chromatic::stream::StreamError;

#[test]
fn setup_prefers_the_configured_device() {
    assert_eq!(setup(true, "USB Audio Device"), Attempt::Manual);
    assert_eq!(setup(true, ""), Attempt::SystemActive);
    assert_eq!(setup(false, "USB Audio Device"), Attempt::SystemActive);
    assert_eq!(setup(false, ""), Attempt::SystemActive);
}

#[test]
fn switch_prefers_the_requested_device() {
    assert_eq!(switch_stream(true, true, "USB Audio Device"), Attempt::Requested);
    assert_eq!(switch_stream(true, false, ""), Attempt::Requested);
    assert_eq!(switch_stream(false, true, "USB Audio Device"), Attempt::Manual);
    assert_eq!(switch_stream(false, true, ""), Attempt::SystemActive);
    assert_eq!(switch_stream(false, false, "USB Audio Device"), Attempt::SystemActive);
}

#[test]
fn a_started_stream_ends_the_selection() {
    assert_eq!(after_attempt(Attempt::Manual, Outcome::Started), Verdict::Done { remember: false });
    assert_eq!(
        after_attempt(Attempt::Requested, Outcome::Started),
        Verdict::Done { remember: true }
    );
    assert_eq!(
        after_attempt(Attempt::SystemActive, Outcome::Started),
        Verdict::Done { remember: true }
    );
    assert_eq!(
        after_attempt(Attempt::BackendDefault, Outcome::Started),
        Verdict::Done { remember: false }
    );
}

#[test]
fn an_unresolved_name_falls_back_with_a_notice() {
    assert_eq!(
        after_attempt(Attempt::Manual, Outcome::Unresolved),
        Verdict::Fallback { next: Attempt::SystemActive, notice: true }
    );
    assert_eq!(
        after_attempt(Attempt::Requested, Outcome::Unresolved),
        Verdict::Fallback { next: Attempt::BackendDefault, notice: true }
    );
    assert_eq!(
        after_attempt(Attempt::SystemActive, Outcome::Unresolved),
        Verdict::Fallback { next: Attempt::BackendDefault, notice: true }
    );
}

#[test]
fn no_active_device_falls_back_quietly() {
    assert_eq!(
        after_attempt(Attempt::SystemActive, Outcome::NoActiveDevice),
        Verdict::Fallback { next: Attempt::BackendDefault, notice: false }
    );
    assert_eq!(
        after_attempt(Attempt::Manual, Outcome::NoActiveDevice),
        Verdict::Fallback { next: Attempt::SystemActive, notice: false }
    );
}

#[test]
fn device_not_found_ends_the_chain() {
    assert_eq!(
        after_attempt(Attempt::BackendDefault, Outcome::Unresolved),
        Verdict::Failed(StreamError::DeviceNotFound)
    );
    assert_eq!(
        after_attempt(Attempt::BackendDefault, Outcome::NoActiveDevice),
        Verdict::Failed(StreamError::DeviceNotFound)
    );
}

#[test]
fn a_failed_open_is_not_retried() {
    for attempt in
        [Attempt::Manual, Attempt::Requested, Attempt::SystemActive, Attempt::BackendDefault]
    {
        assert_eq!(
            after_attempt(attempt, Outcome::OpenFailed),
            Verdict::Failed(StreamError::StreamOpenFailed)
        );
        assert_eq!(
            after_attempt(attempt, Outcome::BackendUnavailable),
            Verdict::Failed(StreamError::BackendUnavailable)
        );
    }
}

#[test]
fn the_whole_chain_takes_three_attempts() {
    let mut attempt = setup(true, "USB Audio Device");
    let mut made = 1;
    loop {
        match after_attempt(attempt, Outcome::Unresolved) {
            Verdict::Fallback { next, .. } => {
                attempt = next;
                made += 1;
            }
            Verdict::Failed(error) => {
                assert_eq!(error, StreamError::DeviceNotFound);
                break;
            }
            Verdict::Done { .. } => unreachable!(),
        }
    }
    assert_eq!(made, 3);
    assert_eq!(attempt, Attempt::BackendDefault);
}
