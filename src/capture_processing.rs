//! Turning a window of stable analysis results into the measurement of one key.
use vstd::prelude::*;

use crate::inharmonicity::{KeyMeasurement, Partial};
use crate::tuning::{get_key_index_from_name, key_index_for_name};
use crate::capture::{is_stable, note_of};
use crate::AnalysisResult;

verus! {

/// How a window of stable frames is reduced to one measurement.
#[derive(Clone, Copy, Debug, PartialEq, Eq, Structural)]
pub enum ProcessingOperation {
    /// Take the frame of highest confidence.
    BestConfidence,
    /// Average all frames; not supported.
    Average,
}

/// Why a window could not be processed.
#[derive(Clone, Copy, Debug, PartialEq, Eq, Structural)]
pub enum ProcessError {
    /// The operation asked for is not supported.
    Unsupported,
}

/// The confidence of a frame, a missing one counting as zero.
pub open spec fn confidence_of(r: AnalysisResult) -> u32 {
    match r.confidence {
        Some(c) => c,
        None => 0,
    }
}

/// Frame `i` is the one of highest confidence in `s`, the first of them on a tie.
pub open spec fn is_best_frame(s: Seq<AnalysisResult>, i: int) -> bool {
    &&& 0 <= i < s.len()
    &&& forall|j: int| 0 <= j < s.len() ==> confidence_of(s[j]) <= confidence_of(s[i])
    &&& forall|j: int| 0 <= j < i ==> confidence_of(s[j]) < confidence_of(s[i])
}

/// The partial list of a frame: its fundamental as partial 1, then its overtones as
/// partials 2, 3, and so on, in order.
pub open spec fn partials_of(fundamental: u32, overtones: Seq<u32>) -> Seq<Partial> {
    seq![Partial { number: 1, frequency: fundamental }] + Seq::new(
        overtones.len(),
        |i: int| Partial { number: (i + 2) as u32, frequency: overtones[i] },
    )
}

/// `m` is the measurement made from frame `f`: the key named by its note, its partial
/// list, and no B value yet.
pub open spec fn is_measurement_of(m: KeyMeasurement, f: AnalysisResult) -> bool {
    match (f.note_name, f.detected_frequency) {
        (Some(name), Some(freq)) => {
            &&& m.key_index as int == key_index_for_name(name@)
            &&& m.partials@ == partials_of(freq, f.partials@)
            &&& m.calculated_b is None
        },
        _ => false,
    }
}

/// Frame `f` has what a measurement is made from: a note and a frequency.
pub open spec fn has_note(f: AnalysisResult) -> bool {
    f.note_name is Some && f.detected_frequency is Some
}

/// Reduces a window of stable frames to the measurement of one key with `operation`.
/// The B value is left unset: it is computed from the measurement's regression points.
pub fn process(buffer: Vec<AnalysisResult>, operation: ProcessingOperation) -> (r: Result<
    Option<KeyMeasurement>,
    ProcessError,
>)
    ensures
        operation == ProcessingOperation::Average ==> r == Err::<Option<KeyMeasurement>, ProcessError>(
            ProcessError::Unsupported,
        ),
        operation == ProcessingOperation::BestConfidence ==> (r matches Ok(m)
            && best_confidence_outcome(buffer@, m)),
{
    match operation {
        ProcessingOperation::BestConfidence => Ok(process_best_confidence(buffer)),
        ProcessingOperation::Average => Err(ProcessError::Unsupported),
    }
}

/// What the best-confidence reduction gives for window `s`: the measurement of its
/// frame of highest confidence, or nothing when the window is empty or that frame has
/// no note.
pub open spec fn best_confidence_outcome(s: Seq<AnalysisResult>, r: Option<KeyMeasurement>) -> bool {
    match r {
        Some(m) => exists|i: int| is_best_frame(s, i) && is_measurement_of(m, s[i]),
        None => forall|i: int| is_best_frame(s, i) ==> !has_note(s[i]),
    }
}

/// The frame of highest confidence, the first of them on a tie.
fn best_frame_index(buffer: &Vec<AnalysisResult>) -> (r: usize)
    requires
        buffer@.len() > 0,
    ensures
        is_best_frame(buffer@, r as int),
{
    let mut best: usize = 0;
    let mut best_conf: u32 = match buffer[0].confidence {
        Some(c) => c,
        None => 0,
    };
    let mut i: usize = 1;
    while i < buffer.len()
        invariant
            1 <= i <= buffer@.len(),
            best < i,
            best_conf == confidence_of(buffer@[best as int]),
            forall|j: int| 0 <= j < i ==> confidence_of(buffer@[j]) <= best_conf,
            forall|j: int| 0 <= j < best ==> confidence_of(buffer@[j]) < best_conf,
        decreases buffer@.len() - i,
    {
        let c: u32 = match buffer[i].confidence {
            Some(c) => c,
            None => 0,
        };
        if c > best_conf {
            best = i;
            best_conf = c;
        }
        i = i + 1;
    }
    best
}

proof fn lemma_best_frame_unique(s: Seq<AnalysisResult>, i: int, j: int)
    requires
        is_best_frame(s, i),
        is_best_frame(s, j),
    ensures
        i == j,
{
    if i < j {
        assert(confidence_of(s[i]) < confidence_of(s[j]));
        assert(confidence_of(s[j]) <= confidence_of(s[i]));
    } else if j < i {
        assert(confidence_of(s[j]) < confidence_of(s[i]));
        assert(confidence_of(s[i]) <= confidence_of(s[j]));
    }
}

/// The best-confidence reduction: the measurement of the frame of highest confidence.
fn process_best_confidence(buffer: Vec<AnalysisResult>) -> (r: Option<KeyMeasurement>)
    ensures
        best_confidence_outcome(buffer@, r),
{
    if buffer.len() == 0 {
        return None;
    }
    let best = best_frame_index(&buffer);
    let frame = &buffer[best];
    proof {
        assert forall|i: int| is_best_frame(buffer@, i) implies i == best by {
            lemma_best_frame_unique(buffer@, i, best as int);
        }
    }
    match (&frame.note_name, frame.detected_frequency) {
        (Some(name), Some(freq)) => {
            let key_index = get_key_index_from_name(name.as_str());
            let mut partials: Vec<Partial> = Vec::new();
            partials.push(Partial { number: 1, frequency: freq });
            let overtones = &frame.partials;
            let mut i: usize = 0;
            while i < overtones.len()
                invariant
                    i <= overtones@.len(),
                    partials@ == partials_of(freq, overtones@.subrange(0, i as int)),
                decreases overtones@.len() - i,
            {
                let number: u32 = #[verifier::truncate] ((i as u128 + 2) as u32);
                partials.push(Partial { number, frequency: overtones[i] });
                proof {
                    assert(partials@ =~= partials_of(freq, overtones@.subrange(0, i + 1)));
                }
                i = i + 1;
            }
            proof {
                assert(overtones@.subrange(0, overtones@.len() as int) =~= overtones@);
            }
            Some(KeyMeasurement { key_index, partials, calculated_b: None })
        },
        _ => None,
    }
}

/// Among frames whose confidences are known and distinct, the frame of strictly
/// highest confidence is the one the best-confidence reduction measures.
pub proof fn lemma_strict_maximum_chosen(s: Seq<AnalysisResult>, i: int)
    requires
        0 <= i < s.len(),
        forall|j: int| 0 <= j < s.len() ==> s[j].confidence is Some,
        forall|j: int|
            0 <= j < s.len() && j != i ==> confidence_of(s[j]) < confidence_of(s[i]),
    ensures
        is_best_frame(s, i),
        forall|k: int| is_best_frame(s, k) ==> k == i,
{
    assert forall|k: int| is_best_frame(s, k) implies k == i by {
        if k != i {
            assert(confidence_of(s[k]) < confidence_of(s[i]));
        }
    }
}

proof fn lemma_best_frame_exists(s: Seq<AnalysisResult>)
    requires
        s.len() > 0,
    ensures
        exists|i: int| is_best_frame(s, i),
    decreases s.len(),
{
    if s.len() == 1 {
        assert(is_best_frame(s, 0));
    } else {
        let init = s.drop_last();
        lemma_best_frame_exists(init);
        let i0 = choose|i: int| is_best_frame(init, i);
        let last = s.len() - 1;
        if confidence_of(s[last]) > confidence_of(s[i0]) {
            assert forall|j: int| 0 <= j < s.len() implies confidence_of(s[j]) <= confidence_of(
                s[last],
            ) by {
                if j < last {
                    assert(init[j] == s[j]);
                }
            }
            assert forall|j: int| 0 <= j < last implies confidence_of(s[j]) < confidence_of(
                s[last],
            ) by {
                assert(init[j] == s[j]);
            }
            assert(is_best_frame(s, last));
        } else {
            assert forall|j: int| 0 <= j < s.len() implies confidence_of(s[j]) <= confidence_of(
                s[i0],
            ) by {
                if j < last {
                    assert(init[j] == s[j]);
                }
            }
            assert forall|j: int| 0 <= j < i0 implies confidence_of(s[j]) < confidence_of(
                s[i0],
            ) by {
                assert(init[j] == s[j]);
            }
            assert(is_best_frame(s, i0));
        }
    }
}

/// A capture window that is stable and whose frames are consistent always yields a
/// measurement, and it is filed under the key of the note the window held.
pub proof fn lemma_stable_window_measured(
    w: Seq<AnalysisResult>,
    threshold: u32,
    m: Option<KeyMeasurement>,
)
    requires
        is_stable(w, threshold),
        forall|i: int| 0 <= i < w.len() ==> #[trigger] w[i].is_consistent(),
        best_confidence_outcome(w, m),
    ensures
        m matches Some(measurement) && measurement.key_index as int == key_index_for_name(
            note_of(w[0])->Some_0,
        ),
{
    lemma_best_frame_exists(w);
    let b = choose|i: int| is_best_frame(w, i);
    assert(note_of(w[b]) == note_of(w[0]));
    assert(w[b].is_consistent());
    assert(has_note(w[b]));
    match m {
        Some(measurement) => {
            let i = choose|i: int| is_best_frame(w, i) && is_measurement_of(measurement, w[i]);
            lemma_best_frame_unique(w, i, b);
        },
        None => {},
    }
}

} // verus!
