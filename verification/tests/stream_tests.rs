use chromatic::stream::{
    mic_index, worker_continues, AudioStreamHandle, ControlPoll, StreamError, StreamState, StreamSupervisor,
    Switch, BUFFER_FRAMES,
};

fn states(s: &StreamSupervisor) -> Vec<StreamState> {
    (0..s.len()).map(|id| s.stream(id).unwrap().state).collect()
}

fn actives(s: &StreamSupervisor) -> usize {
    states(s).iter().filter(|state| **state == StreamState::Active).count()
}

#[test]
fn buffer_size_is_fixed() {
    assert_eq!(BUFFER_FRAMES, 6144);
    assert_eq!(BUFFER_FRAMES, 1024 * 6);
}

#[test]
fn a_new_supervisor_has_no_stream() {
    let mut s = StreamSupervisor::new();
    assert_eq!(s.len(), 0);
    assert_eq!(s.active(), None);
    assert_eq!(s.stream(0), None);
    assert!(!s.is_current(0));
    assert_eq!(s.shutdown(), None);
    assert!(!s.stream_opened(0));
    assert!(!s.stream_failed(0));
    assert!(!s.worker_exited(0));
}

#[test]
fn start_records_a_starting_stream() {
    let mut s = StreamSupervisor::new();
    assert_eq!(s.start_stream(4, 44100), Ok(Switch { opened: 0, signalled: None }));
    assert_eq!(
        s.stream(0),
        Some(AudioStreamHandle {
            device: 4,
            sample_rate: 44100,
            buffer_size: 6144,
            state: StreamState::Starting,
        })
    );
    assert_eq!(s.active(), None);
    assert!(s.stream_opened(0));
    assert_eq!(s.active(), Some(0));
    assert!(s.is_current(0));
    assert!(!s.stream_opened(0));
}

#[test]
fn a_zero_sample_rate_is_refused() {
    let mut s = StreamSupervisor::new();
    s.start_stream(1, 48000).unwrap();
    s.stream_opened(0);
    assert_eq!(s.start_stream(2, 0), Err(StreamError::StreamOpenFailed));
    assert_eq!(s.len(), 1);
    assert_eq!(s.active(), Some(0));
}

#[test]
fn switching_twice_never_leaves_two_active_streams() {
    let mut s = StreamSupervisor::new();
    s.start_stream(1, 44100).unwrap();
    assert!(s.stream_opened(0));
    assert_eq!(s.start_stream(2, 48000), Ok(Switch { opened: 1, signalled: Some(0) }));
    assert_eq!(actives(&s), 0);
    assert_eq!(s.start_stream(3, 96000), Ok(Switch { opened: 2, signalled: Some(1) }));
    assert_eq!(actives(&s), 0);
    assert!(!s.stream_opened(1));
    assert!(!s.stream_opened(0));
    assert!(s.stream_opened(2));
    assert_eq!(
        states(&s),
        vec![StreamState::Closing, StreamState::Closing, StreamState::Active]
    );
    assert_eq!(actives(&s), 1);
    assert_eq!(s.active(), Some(2));
    assert!(!s.is_current(0));
    assert!(!s.is_current(1));
    assert!(s.is_current(2));
    assert!(s.worker_exited(0));
    assert!(!s.worker_exited(0));
    assert_eq!(
        states(&s),
        vec![StreamState::Stopped, StreamState::Closing, StreamState::Active]
    );
}

#[test]
fn a_failed_open_stops_the_stream() {
    let mut s = StreamSupervisor::new();
    s.start_stream(1, 44100).unwrap();
    assert!(s.stream_failed(0));
    assert_eq!(states(&s), vec![StreamState::Stopped]);
    assert!(!s.stream_failed(0));
    assert!(!s.stream_opened(0));
    assert!(!s.worker_exited(0));
    assert_eq!(s.start_stream(1, 44100), Ok(Switch { opened: 1, signalled: None }));
}

#[test]
fn shutdown_signals_the_live_stream_once() {
    let mut s = StreamSupervisor::new();
    s.start_stream(1, 44100).unwrap();
    s.stream_opened(0);
    assert_eq!(s.shutdown(), Some(0));
    assert_eq!(states(&s), vec![StreamState::Closing]);
    assert_eq!(s.shutdown(), None);
    assert!(s.worker_exited(0));
    assert_eq!(states(&s), vec![StreamState::Stopped]);
    s.start_stream(1, 44100).unwrap();
    assert_eq!(s.shutdown(), Some(1));
    assert!(!s.worker_exited(1) || s.stream(1).unwrap().state == StreamState::Stopped);
}

#[test]
fn a_stream_that_ends_by_itself_is_stopped() {
    let mut s = StreamSupervisor::new();
    s.start_stream(1, 44100).unwrap();
    s.stream_opened(0);
    assert!(s.worker_exited(0));
    assert_eq!(s.active(), None);
    assert_eq!(s.start_stream(1, 44100), Ok(Switch { opened: 1, signalled: None }));
}

#[test]
fn unknown_streams_change_nothing() {
    let mut s = StreamSupervisor::new();
    s.start_stream(1, 44100).unwrap();
    assert!(!s.stream_opened(7));
    assert!(!s.stream_failed(usize::MAX));
    assert!(!s.worker_exited(1));
    assert!(!s.is_current(usize::MAX));
    assert_eq!(s.stream(1), None);
    assert_eq!(states(&s), vec![StreamState::Starting]);
}

#[test]
fn the_worker_goes_on_only_while_the_control_channel_is_quiet() {
    assert!(worker_continues(ControlPoll::Empty));
    assert!(!worker_continues(ControlPoll::Message));
    assert!(!worker_continues(ControlPoll::Disconnected));
}

#[test]
fn an_explicit_device_stands() {
    assert_eq!(mic_index(Some(3), Some(1)), Ok(3));
    assert_eq!(mic_index(Some(3), None), Ok(3));
    assert_eq!(mic_index(None, Some(1)), Ok(1));
    assert_eq!(mic_index(None, None), Err(StreamError::DeviceNotFound));
}

#[test]
fn the_estimator_hops_half_a_buffer() {
    let mut s = StreamSupervisor::new();
    s.start_stream(0, 44100).unwrap();
    assert_eq!(s.stream(0).unwrap().hop_size(), 3072);
    let odd = AudioStreamHandle {
        device: 0,
        sample_rate: 8000,
        buffer_size: 7,
        state: StreamState::Stopped,
    };
    assert_eq!(odd.hop_size(), 3);
}

#[test]
fn the_ledger_stays_well_formed() {
    let mut s = StreamSupervisor::new();
    assert!(s.is_well_formed());
    s.start_stream(1, 44100).unwrap();
    assert!(s.is_well_formed());
    s.stream_opened(0);
    s.start_stream(2, 48000).unwrap();
    s.start_stream(3, 0).unwrap_err();
    s.stream_failed(1);
    s.worker_exited(0);
    s.start_stream(4, 8000).unwrap();
    s.shutdown();
    assert!(s.is_well_formed());
    assert_eq!(s.len(), 3);
}
