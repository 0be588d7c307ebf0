//! The supervisor of the audio input streams.
//!
//! The supervisor keeps a ledger of every stream it was asked to open, in
//! the order of the requests; the position in the ledger is the stream's
//! identifier. Only the newest entry can be starting or active: a new
//! request first signals the previous stream to close. The caller opens and
//! closes the real streams and reports what happened.

use vstd::prelude::*;

verus! {

/// Frames per capture buffer, fixed for every stream.
pub const BUFFER_FRAMES: u32 = 6144;

/// Where a stream stands in its life.
#[derive(Clone, Copy, Debug, PartialEq, Eq, Structural)]
pub enum StreamState {
    /// Closed, or never opened.
    Stopped,
    /// Requested; the backend has not confirmed it yet.
    Starting,
    /// Open and delivering buffers.
    Active,
    /// Signalled to stop; its worker has not left yet.
    Closing,
}

/// Why no stream could be started. None of these ends the process.
#[derive(Clone, Copy, Debug, PartialEq, Eq, Structural)]
pub enum StreamError {
    /// No capture device could be resolved.
    DeviceNotFound,
    /// The capture subsystem failed to initialize.
    BackendUnavailable,
    /// The backend refused to open the chosen device.
    StreamOpenFailed,
}

/// One entry of the ledger.
#[derive(Clone, Copy, Debug, PartialEq, Eq, Structural)]
pub struct AudioStreamHandle {
    /// The capture backend's index of the device.
    pub device: u32,
    /// Samples per second, as the device reports it.
    pub sample_rate: u32,
    /// Frames per buffer.
    pub buffer_size: u32,
    /// The stream's present state.
    pub state: StreamState,
}

/// What a successful request to start a stream did.
#[derive(Clone, Copy, Debug, PartialEq, Eq, Structural)]
pub struct Switch {
    /// The identifier of the stream to open.
    pub opened: usize,
    /// The stream whose worker has to be signalled to stop, if there is one.
    pub signalled: Option<usize>,
}

/// What a worker found on its control channel.
#[derive(Clone, Copy, Debug, PartialEq, Eq, Structural)]
pub enum ControlPoll {
    /// Nothing was waiting.
    Empty,
    /// A message was waiting.
    Message,
    /// The sending half is gone.
    Disconnected,
}

/// A stream that is starting or active.
pub open spec fn is_live(state: StreamState) -> bool {
    state == StreamState::Starting || state == StreamState::Active
}

/// The ledger's invariant: every entry has a positive sample rate and
/// buffer size, and no entry but the last is starting or active.
pub open spec fn ledger_ok(streams: Seq<AudioStreamHandle>) -> bool {
    &&& forall|i: int|
        0 <= i < streams.len() ==> (#[trigger] streams[i]).sample_rate > 0 && streams[i].buffer_size
            > 0
    &&& forall|i: int| 0 <= i < streams.len() - 1 ==> !is_live((#[trigger] streams[i]).state)
}

/// The entry with another state.
pub open spec fn with_state(handle: AudioStreamHandle, state: StreamState) -> AudioStreamHandle {
    AudioStreamHandle { state, ..handle }
}

/// The stream that a new request or a shutdown has to signal: the last
/// one, if it is starting or active.
pub open spec fn live_stream(streams: Seq<AudioStreamHandle>) -> Option<usize> {
    if streams.len() > 0 && is_live(streams.last().state) {
        Some((streams.len() - 1) as usize)
    } else {
        None
    }
}

/// The ledger after its live stream, if any, was signalled to close.
pub open spec fn retired(streams: Seq<AudioStreamHandle>) -> Seq<AudioStreamHandle> {
    if streams.len() > 0 && is_live(streams.last().state) {
        streams.update(streams.len() - 1, with_state(streams.last(), StreamState::Closing))
    } else {
        streams
    }
}

/// Whether the stream `id` is the one in the given state at the end of the
/// ledger.
pub open spec fn newest_in(streams: Seq<AudioStreamHandle>, id: usize, state: StreamState) -> bool {
    id + 1 == streams.len() && streams[id as int].state == state
}

/// Whether a worker exists for the stream `id`: it was opened and has not
/// reported its exit.
pub open spec fn has_worker(streams: Seq<AudioStreamHandle>, id: usize) -> bool {
    id < streams.len() && (streams[id as int].state == StreamState::Active || streams[id as int].state
        == StreamState::Closing)
}

/// The device that a request resolves to: the explicit one if there is
/// one, else the backend's default input.
pub open spec fn chosen_device(mic_option: Option<u32>, default_input: Option<u32>) -> Option<u32> {
    match mic_option {
        Some(index) => Some(index),
        None => default_input,
    }
}

/// Resolves the device of a request. An explicit device stands; without
/// one the backend's default input is taken, and `DeviceNotFound` is the
/// answer if the backend has none.
pub fn mic_index(mic_option: Option<u32>, default_input: Option<u32>) -> (device: Result<
    u32,
    StreamError,
>)
    ensures
        match device {
            Ok(index) => chosen_device(mic_option, default_input) == Some(index),
            Err(error) => error == StreamError::DeviceNotFound && chosen_device(
                mic_option,
                default_input,
            ).is_none(),
        },
{
    match mic_option {
        Some(index) => Ok(index),
        None => match default_input {
            Some(index) => Ok(index),
            None => Err(StreamError::DeviceNotFound),
        },
    }
}

impl AudioStreamHandle {
    /// The frames by which the pitch estimator advances from one estimate
    /// to the next: half a buffer.
    pub fn hop_size(&self) -> (hop: u32)
        ensures
            hop == self.buffer_size / 2,
    {
        self.buffer_size / 2
    }
}

/// The owner of the stream ledger.
pub struct StreamSupervisor {
    streams: Vec<AudioStreamHandle>,
}

impl View for StreamSupervisor {
    type V = Seq<AudioStreamHandle>;

    closed spec fn view(&self) -> Seq<AudioStreamHandle> {
        self.streams@
    }
}

impl StreamSupervisor {
    /// The invariant that every operation keeps: the ledger is well
    /// formed.
    pub open spec fn wf(&self) -> bool {
        ledger_ok(self@)
    }

    /// A supervisor that has opened nothing yet.
    pub fn new() -> (supervisor: StreamSupervisor)
        ensures
            supervisor@ == Seq::<AudioStreamHandle>::empty(),
            supervisor.wf(),
    {
        StreamSupervisor { streams: Vec::new() }
    }

    /// Records the request to capture from `device` at `sample_rate`.
    ///
    /// A sample rate of zero is refused and leaves the ledger as it was.
    /// Otherwise the stream that was starting or active, if any, becomes
    /// closing and is named in the answer, and a new starting stream is
    /// appended, whose identifier the answer carries.
    pub fn start_stream(&mut self, device: u32, sample_rate: u32) -> (outcome: Result<
        Switch,
        StreamError,
    >)
        requires
            old(self).wf(),
        ensures
            final(self).wf(),
            sample_rate == 0 ==> outcome == Err::<Switch, StreamError>(StreamError::StreamOpenFailed)
                && final(self)@ == old(self)@,
            sample_rate > 0 ==> outcome == Ok::<Switch, StreamError>(
                Switch { opened: old(self)@.len() as usize, signalled: live_stream(old(self)@) },
            ) && final(self)@ == retired(old(self)@).push(
                AudioStreamHandle {
                    device,
                    sample_rate,
                    buffer_size: BUFFER_FRAMES,
                    state: StreamState::Starting,
                },
            ),
    {
        if sample_rate == 0 {
            return Err(StreamError::StreamOpenFailed);
        }
        let signalled = self.shutdown();
        let opened = self.streams.len();
        self.streams.push(
            AudioStreamHandle {
                device,
                sample_rate,
                buffer_size: BUFFER_FRAMES,
                state: StreamState::Starting,
            },
        );
        Ok(Switch { opened, signalled })
    }

    /// Signals the stream that is starting or active, if any, to close, and
    /// names it.
    pub fn shutdown(&mut self) -> (signalled: Option<usize>)
        requires
            old(self).wf(),
        ensures
            final(self).wf(),
            signalled == live_stream(old(self)@),
            final(self)@ == retired(old(self)@),
            live_stream(final(self)@) == None::<usize>,
    {
        let n = self.streams.len();
        if n == 0 {
            return None;
        }
        let last = self.streams[n - 1];
        match last.state {
            StreamState::Starting | StreamState::Active => {
                self.streams.set(
                    n - 1,
                    AudioStreamHandle {
                        device: last.device,
                        sample_rate: last.sample_rate,
                        buffer_size: last.buffer_size,
                        state: StreamState::Closing,
                    },
                );
                Some(n - 1)
            },
            _ => None,
        }
    }

    /// Reports that the backend opened and started the stream `id`.
    ///
    /// The stream becomes active if it is the newest one and still
    /// starting; then the answer is `true`. In every other case nothing
    /// changes and the answer is `false`: the caller has to close what it
    /// opened.
    pub fn stream_opened(&mut self, id: usize) -> (accepted: bool)
        requires
            old(self).wf(),
        ensures
            final(self).wf(),
            accepted == newest_in(old(self)@, id, StreamState::Starting),
            accepted ==> final(self)@ == old(self)@.update(
                id as int,
                with_state(old(self)@[id as int], StreamState::Active),
            ),
            !accepted ==> final(self)@ == old(self)@,
    {
        self.settle(id, StreamState::Starting, StreamState::Active)
    }

    /// Reports that the backend failed to open the stream `id`.
    ///
    /// The stream becomes stopped if it is the newest one and still
    /// starting; then the answer is `true`. In every other case nothing
    /// changes and the answer is `false`.
    pub fn stream_failed(&mut self, id: usize) -> (accepted: bool)
        requires
            old(self).wf(),
        ensures
            final(self).wf(),
            accepted == newest_in(old(self)@, id, StreamState::Starting),
            accepted ==> final(self)@ == old(self)@.update(
                id as int,
                with_state(old(self)@[id as int], StreamState::Stopped),
            ),
            !accepted ==> final(self)@ == old(self)@,
    {
        self.settle(id, StreamState::Starting, StreamState::Stopped)
    }

    /// Moves the newest stream from one state to another, if `id` names it
    /// and it is in the first.
    fn settle(&mut self, id: usize, from: StreamState, to: StreamState) -> (accepted: bool)
        requires
            old(self).wf(),
        ensures
            final(self).wf(),
            accepted == newest_in(old(self)@, id, from),
            accepted ==> final(self)@ == old(self)@.update(
                id as int,
                with_state(old(self)@[id as int], to),
            ),
            !accepted ==> final(self)@ == old(self)@,
    {
        let n = self.streams.len();
        if n == 0 || id != n - 1 {
            return false;
        }
        let entry = self.streams[id];
        if entry.state != from {
            return false;
        }
        self.streams.set(
            id,
            AudioStreamHandle {
                device: entry.device,
                sample_rate: entry.sample_rate,
                buffer_size: entry.buffer_size,
                state: to,
            },
        );
        true
    }

    /// Reports that the worker of the stream `id` has closed the stream and
    /// left.
    ///
    /// An active or closing stream becomes stopped, and the answer is
    /// `true`. A stream that has no worker, or an unknown identifier,
    /// changes nothing, and the answer is `false`.
    pub fn worker_exited(&mut self, id: usize) -> (accepted: bool)
        requires
            old(self).wf(),
        ensures
            final(self).wf(),
            accepted == has_worker(old(self)@, id),
            accepted ==> final(self)@ == old(self)@.update(
                id as int,
                with_state(old(self)@[id as int], StreamState::Stopped),
            ),
            !accepted ==> final(self)@ == old(self)@,
    {
        if id >= self.streams.len() {
            return false;
        }
        let entry = self.streams[id];
        match entry.state {
            StreamState::Active | StreamState::Closing => {
                self.streams.set(
                    id,
                    AudioStreamHandle {
                        device: entry.device,
                        sample_rate: entry.sample_rate,
                        buffer_size: entry.buffer_size,
                        state: StreamState::Stopped,
                    },
                );
                true
            },
            _ => false,
        }
    }

    /// Tells whether the ledger is well formed. A supervisor made by `new`
    /// and changed by its own operations alone always is.
    pub fn is_well_formed(&self) -> (ok: bool)
        ensures
            ok == self.wf(),
    {
        let n = self.streams.len();
        let mut i: usize = 0;
        while i < n
            invariant
                n == self.streams@.len(),
                i <= n,
                forall|j: int|
                    0 <= j < i ==> (#[trigger] self.streams@[j]).sample_rate > 0
                        && self.streams@[j].buffer_size > 0,
                forall|j: int|
                    0 <= j < i && j < n - 1 ==> !is_live((#[trigger] self.streams@[j]).state),
            decreases n - i,
        {
            let entry = self.streams[i];
            if entry.sample_rate == 0 || entry.buffer_size == 0 {
                return false;
            }
            if i + 1 < n {
                match entry.state {
                    StreamState::Starting | StreamState::Active => {
                        return false;
                    },
                    _ => {},
                }
            }
            i += 1;
        }
        true
    }

    /// The number of streams requested so far.
    pub fn len(&self) -> (n: usize)
        ensures
            n == self@.len(),
    {
        self.streams.len()
    }

    /// The ledger's entry for the stream `id`, if there is one.
    pub fn stream(&self, id: usize) -> (entry: Option<AudioStreamHandle>)
        ensures
            entry == if id < self@.len() {
                Some(self@[id as int])
            } else {
                None
            },
    {
        if id < self.streams.len() {
            Some(self.streams[id])
        } else {
            None
        }
    }

    /// The identifier of the active stream, if there is one.
    pub fn active(&self) -> (id: Option<usize>)
        requires
            self.wf(),
        ensures
            match id {
                Some(i) => newest_in(self@, i, StreamState::Active),
                None => forall|i: int| 0 <= i < self@.len() ==> (#[trigger] self@[i]).state
                    != StreamState::Active,
            },
    {
        let n = self.streams.len();
        if n > 0 && self.streams[n - 1].state == StreamState::Active {
            Some(n - 1)
        } else {
            None
        }
    }

    /// Whether results tagged with the stream `id` come from the active
    /// stream. Results of any other stream are stale.
    pub fn is_current(&self, id: usize) -> (current: bool)
        ensures
            current == newest_in(self@, id, StreamState::Active),
    {
        let n = self.streams.len();
        n > 0 && id == n - 1 && self.streams[id].state == StreamState::Active
    }
}

/// Whether a worker goes on to the next batch after it polled its control
/// channel: only while nothing arrived there. A message and a disconnect
/// both end it.
pub fn worker_continues(control: ControlPoll) -> (goes_on: bool)
    ensures
        goes_on == (control == ControlPoll::Empty),
{
    match control {
        ControlPoll::Empty => true,
        _ => false,
    }
}

/// At most one stream of a well-formed ledger is active, and no stream
/// before the last is starting or active.
pub proof fn lemma_single_active(streams: Seq<AudioStreamHandle>, i: int, j: int)
    requires
        ledger_ok(streams),
        0 <= i < streams.len(),
        0 <= j < streams.len(),
        streams[i].state == StreamState::Active,
        streams[j].state == StreamState::Active,
    ensures
        i == j,
        i == streams.len() - 1,
{
    assert(is_live(streams[i].state));
    assert(is_live(streams[j].state));
}

/// The ledger after a request for `device` at a positive `sample_rate`.
pub open spec fn after_start(streams: Seq<AudioStreamHandle>, device: u32, sample_rate: u32) -> Seq<
    AudioStreamHandle,
> {
    retired(streams).push(
        AudioStreamHandle {
            device,
            sample_rate,
            buffer_size: BUFFER_FRAMES,
            state: StreamState::Starting,
        },
    )
}

/// A request keeps the ledger well formed, leaves no earlier stream
/// starting or active, and changes nothing of the earlier entries but the
/// state of the one it signalled.
pub proof fn lemma_start_retires(streams: Seq<AudioStreamHandle>, device: u32, sample_rate: u32)
    requires
        ledger_ok(streams),
        sample_rate > 0,
    ensures
        ledger_ok(after_start(streams, device, sample_rate)),
        after_start(streams, device, sample_rate).len() == streams.len() + 1,
        forall|i: int|
            0 <= i < streams.len() ==> !is_live(
                (#[trigger] after_start(streams, device, sample_rate)[i]).state,
            ),
        forall|i: int|
            0 <= i < streams.len() && !is_live(streams[i].state) ==> (#[trigger] after_start(
                streams,
                device,
                sample_rate,
            )[i]) == streams[i],
{
}

/// Two requests in a row, whether or not the first stream was confirmed in
/// between, leave the first stream neither starting nor active, so that
/// only the second can be the active one.
pub proof fn lemma_rapid_switch(
    streams: Seq<AudioStreamHandle>,
    first_device: u32,
    first_rate: u32,
    confirmed: bool,
    second_device: u32,
    second_rate: u32,
)
    requires
        ledger_ok(streams),
        first_rate > 0,
        second_rate > 0,
    ensures
        ({
            let first = streams.len() as int;
            let one = after_start(streams, first_device, first_rate);
            let between = if confirmed {
                one.update(first, with_state(one[first], StreamState::Active))
            } else {
                one
            };
            let two = after_start(between, second_device, second_rate);
            &&& ledger_ok(two)
            &&& two.len() == streams.len() + 2
            &&& two[first].state == StreamState::Closing
            &&& forall|i: int|
                0 <= i < two.len() && (#[trigger] two[i]).state == StreamState::Active ==> i
                    == first + 1
        }),
{
    let first = streams.len() as int;
    let one = after_start(streams, first_device, first_rate);
    lemma_start_retires(streams, first_device, first_rate);
    let between = if confirmed {
        one.update(first, with_state(one[first], StreamState::Active))
    } else {
        one
    };
    assert(ledger_ok(between));
    lemma_start_retires(between, second_device, second_rate);
}

} // verus!
