//! The operating system's list of audio sources.
//!
//! The mixer describes each source in words meant for people. Those words
//! are what the preferences offer for selection and what is matched against
//! the capture backend's own names.

use vstd::prelude::*;

verus! {

/// The state the mixer reports for a source.
#[derive(Clone, Copy, Debug, PartialEq, Eq, Structural)]
pub enum DevState {
    /// The server does not tell.
    Invalid,
    /// In use by at least one recording client.
    Running,
    /// Open, with no client attached.
    Idle,
    /// Closed for now.
    Suspended,
}

/// One source of the mixer.
#[derive(Clone, Debug)]
pub struct MixerSource {
    /// The description shown to the user.
    pub description: String,
    /// The sink that this source monitors, if it is a monitor.
    pub monitor: Option<u32>,
    /// The state of the source.
    pub state: DevState,
}

/// Whether the source is a real input, not the monitor of an output.
pub open spec fn is_input(source: MixerSource) -> bool {
    source.monitor.is_none()
}

/// The descriptions of the real inputs among the sources, in their order.
pub open spec fn inputs_of(sources: Seq<MixerSource>) -> Seq<String> {
    sources.filter(|s: MixerSource| is_input(s)).map_values(|s: MixerSource| s.description)
}

/// Whether `at` is the first running source.
pub open spec fn first_running(sources: Seq<MixerSource>, at: int) -> bool {
    &&& 0 <= at < sources.len()
    &&& sources[at].state == DevState::Running
    &&& forall|j: int| 0 <= j < at ==> (#[trigger] sources[j]).state != DevState::Running
}

/// The descriptions of the sources that are real inputs, in the mixer's
/// order. Monitors of outputs are left out.
pub fn input_devices(sources: &Vec<MixerSource>) -> (names: Vec<String>)
    ensures
        names@ == inputs_of(sources@),
{
    let mut names: Vec<String> = Vec::new();
    let mut i: usize = 0;
    while i < sources.len()
        invariant
            i <= sources.len(),
            names@ == inputs_of(sources@.take(i as int)),
        decreases sources.len() - i,
    {
        proof {
            let pred = |s: MixerSource| is_input(s);
            let name = |s: MixerSource| s.description;
            let seen = sources@.take(i as int);
            let next = sources@.take(i + 1);
            assert(next.drop_last() =~= seen);
            assert(next.last() == sources@[i as int]);
            reveal(Seq::filter);
            assert(next.filter(pred) == if pred(next.last()) {
                seen.filter(pred).push(next.last())
            } else {
                seen.filter(pred)
            });
            assert(seen.filter(pred).push(next.last()).map_values(name) =~= seen.filter(
                pred,
            ).map_values(name).push(next.last().description));
        }
        if sources[i].monitor.is_none() {
            names.push(sources[i].description.clone());
        }
        i += 1;
    }
    proof {
        assert(sources@.take(i as int) =~= sources@);
    }
    names
}

/// The description of the first source that is running, if any is.
pub fn running_device(sources: &Vec<MixerSource>) -> (name: Option<String>)
    ensures
        match name {
            Some(description) => exists|at: int| #[trigger]
                first_running(sources@, at) && description == sources@[at].description,
            None => forall|j: int|
                0 <= j < sources@.len() ==> (#[trigger] sources@[j]).state != DevState::Running,
        },
{
    let mut i: usize = 0;
    while i < sources.len()
        invariant
            i <= sources.len(),
            forall|j: int| 0 <= j < i ==> (#[trigger] sources@[j]).state != DevState::Running,
        decreases sources.len() - i,
    {
        if sources[i].state == DevState::Running {
            assert(first_running(sources@, i as int));
            return Some(sources[i].description.clone());
        }
        i += 1;
    }
    None
}

} // verus!
