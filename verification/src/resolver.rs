//! Resolving a device by its name.
//!
//! The operating system's mixer and the capture backend list the same
//! hardware under names that differ. A name from one list is matched
//! against the names of the other with a fuzzy score; the best positive
//! score wins, and the first candidate wins a tie.

use crate::stream::StreamError;
use fuzzy_matcher::skim::SkimMatcherV2;
use fuzzy_matcher::FuzzyMatcher;
use vstd::prelude::*;
use vstd::string::StrSliceExecFns;

verus! {

/// The longest name, in characters, that is handed to the matcher. The
/// matcher adds up its scores in 32-bit integers, at most a few dozen per
/// character; names within this limit stay far away from their range.
pub const NAME_LIMIT: usize = 0x10_0000;

/// One device of the capture backend.
#[derive(Clone, Debug)]
pub struct CaptureDevice {
    /// The backend's index of the device.
    pub index: u32,
    /// The backend's name for it.
    pub name: String,
    /// How many input channels it offers; none for an output device.
    pub max_input_channels: i32,
}

/// The score that the skim matcher, in its second version and with its
/// default settings, gives to `pattern` as a fuzzy match within `choice`;
/// `None` where it finds no match.
pub uninterp spec fn skim_score(choice: Seq<char>, pattern: Seq<char>) -> Option<i64>;

/// Calls `fuzzy_match` of `fuzzy_matcher::skim::SkimMatcherV2`, on a
/// matcher made by `SkimMatcherV2::default()` for this one call.
///
/// The contract claims that the result depends on the two strings alone,
/// and gives it its name. The matcher is deterministic: it keeps buffers
/// between calls, never scores, and a fresh matcher has none. Lengths
/// beyond the limit are left out because the matcher's 32-bit arithmetic
/// is only known to stay in range below it.
#[verifier::external_body]
fn fuzzy_match(choice: &str, pattern: &str) -> (score: Option<i64>)
    requires
        choice@.len() <= NAME_LIMIT,
        pattern@.len() <= NAME_LIMIT,
    ensures
        score == skim_score(choice@, pattern@),
{
    SkimMatcherV2::default().fuzzy_match(choice, pattern)
}

/// The score of the candidate's name as a match for the wanted name: what
/// the matcher says when the candidate's name is sought within the wanted
/// one, and no match where either name exceeds the limit.
pub open spec fn name_score(wanted: Seq<char>, candidate: Seq<char>) -> Option<i64> {
    if wanted.len() <= NAME_LIMIT && candidate.len() <= NAME_LIMIT {
        skim_score(wanted, candidate)
    } else {
        None
    }
}

/// The scores of all candidates, in their order.
pub open spec fn name_scores(wanted: Seq<char>, candidates: Seq<String>) -> Seq<Option<i64>> {
    Seq::new(candidates.len(), |i: int| name_score(wanted, candidates[i]@))
}

/// The scores of the capture devices: a device without input channels
/// never matches.
pub open spec fn device_scores(wanted: Seq<char>, devices: Seq<CaptureDevice>) -> Seq<Option<i64>> {
    Seq::new(
        devices.len(),
        |i: int|
            if devices[i].max_input_channels > 0 {
                name_score(wanted, devices[i].name@)
            } else {
                None
            },
    )
}

/// What a score counts for: nothing where there is no match.
pub open spec fn weight(score: Option<i64>) -> int {
    match score {
        Some(value) => value as int,
        None => 0,
    }
}

/// Whether `best` is the answer for the given scores: the first position
/// that holds the highest score, provided that score is above zero; and no
/// position if no score is above zero.
pub open spec fn is_best(scores: Seq<Option<i64>>, best: Option<usize>) -> bool {
    match best {
        Some(at) => {
            &&& at < scores.len()
            &&& weight(scores[at as int]) > 0
            &&& forall|j: int| 0 <= j < scores.len() ==> weight(#[trigger] scores[j]) <= weight(
                scores[at as int],
            )
            &&& forall|j: int| 0 <= j < at ==> weight(#[trigger] scores[j]) < weight(
                scores[at as int],
            )
        },
        None => forall|j: int| 0 <= j < scores.len() ==> weight(#[trigger] scores[j]) <= 0,
    }
}

/// The scores leave no choice: two answers for the same scores are one.
pub proof fn lemma_best_unique(scores: Seq<Option<i64>>, a: Option<usize>, b: Option<usize>)
    requires
        is_best(scores, a),
        is_best(scores, b),
    ensures
        a == b,
{
    match (a, b) {
        (Some(x), Some(y)) => {
            if x < y {
                assert(weight(scores[x as int]) < weight(scores[y as int]));
                assert(weight(scores[y as int]) <= weight(scores[x as int]));
            } else if y < x {
                assert(weight(scores[y as int]) < weight(scores[x as int]));
                assert(weight(scores[x as int]) <= weight(scores[y as int]));
            }
        },
        (Some(x), None) => {
            assert(weight(scores[x as int]) <= 0);
        },
        (None, Some(y)) => {
            assert(weight(scores[y as int]) <= 0);
        },
        (None, None) => {},
    }
}

/// Scores the candidate's name as a match for the wanted name.
pub fn score_name(wanted: &str, candidate: &str) -> (score: Option<i64>)
    ensures
        score == name_score(wanted@, candidate@),
{
    if wanted.unicode_len() <= NAME_LIMIT && candidate.unicode_len() <= NAME_LIMIT {
        fuzzy_match(wanted, candidate)
    } else {
        None
    }
}

/// Picks the winner among the scores: the first position with the highest
/// score, if that score is above zero.
pub fn best_match(scores: &Vec<Option<i64>>) -> (best: Option<usize>)
    ensures
        is_best(scores@, best),
{
    let mut best: Option<usize> = None;
    let mut ratio: i64 = 0;
    let mut i: usize = 0;
    while i < scores.len()
        invariant
            i <= scores.len(),
            is_best(scores@.take(i as int), best),
            ratio == (match best {
                Some(at) => weight(scores@[at as int]),
                None => 0,
            }),
        decreases scores.len() - i,
    {
        let ghost seen = scores@.take(i as int);
        let ghost next = scores@.take(i + 1);
        assert(forall|j: int| 0 <= j < i ==> next[j] == seen[j]);
        assert(next[i as int] == scores@[i as int]);
        match scores[i] {
            Some(value) => {
                if value > ratio {
                    ratio = value;
                    best = Some(i);
                }
            },
            None => {},
        }
        i += 1;
    }
    assert(scores@.take(i as int) =~= scores@);
    best
}

/// Resolves the wanted name among the candidates: the position of the
/// candidate with the highest score above zero, the first of them on a
/// tie, and `None` if no candidate scores above zero.
pub fn resolve(wanted: &str, candidates: &Vec<String>) -> (found: Option<usize>)
    ensures
        is_best(name_scores(wanted@, candidates@), found),
{
    let mut scores: Vec<Option<i64>> = Vec::new();
    let mut i: usize = 0;
    while i < candidates.len()
        invariant
            i <= candidates.len(),
            scores@ =~= name_scores(wanted@, candidates@).take(i as int),
        decreases candidates.len() - i,
    {
        let score = score_name(wanted, candidates[i].as_str());
        scores.push(score);
        i += 1;
    }
    assert(scores@ =~= name_scores(wanted@, candidates@));
    best_match(&scores)
}

/// The entry of a list of names to select for the stored name: the one
/// that `resolve` finds, and the first entry if it finds none.
pub fn set_device_selected(selected_name: &str, names: &Vec<String>) -> (index: usize)
    ensures
        exists|best: Option<usize>|
            is_best(name_scores(selected_name@, names@), best) && index == (match best {
                Some(at) => at,
                None => 0,
            }),
{
    match resolve(selected_name, names) {
        Some(at) => at,
        None => 0,
    }
}

/// The capture device to record from for the wanted name.
///
/// Without a default input device the backend has nothing to fall back on,
/// and the answer is `DeviceNotFound` whatever the names are. Otherwise it
/// is the index of the input device whose name scores highest above zero,
/// the first of them on a tie, and the default device if none scores above
/// zero.
pub fn running_mic_index(
    device_name: &str,
    devices: &Vec<CaptureDevice>,
    default_input: Option<u32>,
) -> (found: Result<u32, StreamError>)
    ensures
        match found {
            Ok(index) => default_input.is_some() && exists|best: Option<usize>|
                is_best(device_scores(device_name@, devices@), best) && index == (match best {
                    Some(at) => devices@[at as int].index,
                    None => default_input.unwrap(),
                }),
            Err(error) => default_input.is_none() && error == StreamError::DeviceNotFound,
        },
{
    let fallback = match default_input {
        Some(index) => index,
        None => {
            return Err(StreamError::DeviceNotFound);
        },
    };
    let mut scores: Vec<Option<i64>> = Vec::new();
    let mut i: usize = 0;
    while i < devices.len()
        invariant
            i <= devices.len(),
            scores@ =~= device_scores(device_name@, devices@).take(i as int),
        decreases devices.len() - i,
    {
        let score = if devices[i].max_input_channels > 0 {
            score_name(device_name, devices[i].name.as_str())
        } else {
            None
        };
        scores.push(score);
        i += 1;
    }
    assert(scores@ =~= device_scores(device_name@, devices@));
    match best_match(&scores) {
        Some(at) => Ok(devices[at].index),
        None => Ok(fallback),
    }
}

} // verus!
