//! The stability-gated capture of a held note.
//!
//! While capturing, each analysis result enters a sliding window of fixed size.
//! Once the window is full and every frame in it names the same note with a
//! confidence above the threshold, the capture completes: the window is handed
//! over whole and the machine moves to `Done`.
use vstd::prelude::*;

use crate::AnalysisResult;

verus! {

/// The stage of the capture cycle.
#[derive(PartialEq, Eq, Structural, Clone, Copy, Debug)]
pub enum CaptureState {
    /// Measurement mode is off.
    Off,
    /// Measurement mode is on, ready to capture.
    Armed,
    /// Frames are being gathered.
    Capturing,
    /// A capture has just completed; the next tick arms again.
    Done,
}

/// The note a frame names, as characters.
pub open spec fn note_of(f: AnalysisResult) -> Option<Seq<char>> {
    match f.note_name {
        Some(n) => Some(n@),
        None => None,
    }
}

/// Frame `f` is confident: its confidence is present and above `threshold`.
pub open spec fn is_confident(f: AnalysisResult, threshold: u32) -> bool {
    match f.confidence {
        Some(c) => c > threshold,
        None => false,
    }
}

/// The frames of `w` are stable: there is at least one, the first names a note, and
/// every frame names that note and is confident.
pub open spec fn is_stable(w: Seq<AnalysisResult>, threshold: u32) -> bool {
    &&& w.len() > 0
    &&& note_of(w[0]) is Some
    &&& forall|i: int|
        0 <= i < w.len() ==> #[trigger] note_of(w[i]) == note_of(w[0]) && is_confident(
            w[i],
            threshold,
        )
}

/// The window after frame `f` enters `w`: the oldest frame leaves once there are more
/// than `target`.
pub open spec fn slide(w: Seq<AnalysisResult>, f: AnalysisResult, target: nat) -> Seq<AnalysisResult> {
    if w.len() + 1 > target {
        w.push(f).drop_first()
    } else {
        w.push(f)
    }
}

/// One frame fed to the machine in state `st` with window `w`: the next state, the
/// next window, and the window handed over if the capture completed.
pub open spec fn step(
    st: CaptureState,
    w: Seq<AnalysisResult>,
    f: AnalysisResult,
    target: nat,
    threshold: u32,
) -> (CaptureState, Seq<AnalysisResult>, Option<Seq<AnalysisResult>>) {
    if st != CaptureState::Capturing {
        (st, w, None)
    } else {
        let next = slide(w, f, target);
        if next.len() == target && is_stable(next, threshold) {
            (CaptureState::Done, Seq::empty(), Some(next))
        } else {
            (CaptureState::Capturing, next, None)
        }
    }
}

/// Frames fed one after another: the final state, the final window, and every window
/// handed over, in order.
pub open spec fn run(
    st: CaptureState,
    w: Seq<AnalysisResult>,
    frames: Seq<AnalysisResult>,
    target: nat,
    threshold: u32,
) -> (CaptureState, Seq<AnalysisResult>, Seq<Seq<AnalysisResult>>)
    decreases frames.len(),
{
    if frames.len() == 0 {
        (st, w, Seq::empty())
    } else {
        let before = run(st, w, frames.drop_last(), target, threshold);
        let after = step(before.0, before.1, frames.last(), target, threshold);
        match after.2 {
            Some(handed) => (after.0, after.1, before.2.push(handed)),
            None => (after.0, after.1, before.2),
        }
    }
}

/// Reports whether the frames of `buffer` are stable: at least one, all naming the
/// note of the first, all with a confidence above `threshold`.
pub fn check_stability(buffer: &Vec<AnalysisResult>, threshold: u32) -> (r: bool)
    ensures
        r == is_stable(buffer@, threshold),
{
    if buffer.len() == 0 {
        return false;
    }
    let first = match &buffer[0].note_name {
        Some(n) => n,
        None => return false,
    };
    let mut i: usize = 0;
    while i < buffer.len()
        invariant
            i <= buffer@.len(),
            buffer@.len() > 0,
            note_of(buffer@[0]) == Some(first@),
            forall|j: int|
                0 <= j < i ==> #[trigger] note_of(buffer@[j]) == note_of(buffer@[0]) && is_confident(
                    buffer@[j],
                    threshold,
                ),
        decreases buffer@.len() - i,
    {
        let frame = &buffer[i];
        let confident = match frame.confidence {
            Some(c) => c > threshold,
            None => false,
        };
        if !confident {
            return false;
        }
        match &frame.note_name {
            Some(n) => {
                if !(*n == *first) {
                    assert(note_of(buffer@[i as int]) != note_of(buffer@[0]));
                    return false;
                }
            },
            None => {
                return false;
            },
        }
        i = i + 1;
    }
    true
}

/// The capture cycle and its window of recent frames.
pub struct CaptureMachine {
    state: CaptureState,
    window: Vec<AnalysisResult>,
    target: usize,
    threshold: u32,
}

impl CaptureMachine {
    /// The stage of the cycle.
    pub closed spec fn state_spec(&self) -> CaptureState {
        self.state
    }

    /// The frames gathered so far, oldest first.
    pub closed spec fn window_spec(&self) -> Seq<AnalysisResult> {
        self.window@
    }

    /// The number of agreeing frames a capture needs.
    pub closed spec fn target_spec(&self) -> nat {
        self.target as nat
    }

    /// The confidence a frame must exceed to count as stable.
    pub closed spec fn threshold_spec(&self) -> u32 {
        self.threshold
    }

    /// The machine is consistent: a capture needs at least one frame, the window never
    /// holds more than that, and it is empty when measurement is off or just done.
    pub open spec fn wf(&self) -> bool {
        &&& self.target_spec() > 0
        &&& self.window_spec().len() <= self.target_spec()
        &&& (self.state_spec() == CaptureState::Off || self.state_spec() == CaptureState::Done)
            ==> self.window_spec().len() == 0
    }

    /// A machine with measurement off, completing a capture after `target` agreeing
    /// frames whose confidence exceeds `threshold`.
    pub fn new(target: usize, threshold: u32) -> (r: CaptureMachine)
        requires
            target > 0,
        ensures
            r.wf(),
            r.state_spec() == CaptureState::Off,
            r.window_spec().len() == 0,
            r.target_spec() == target,
            r.threshold_spec() == threshold,
    {
        CaptureMachine { state: CaptureState::Off, window: Vec::new(), target, threshold }
    }

    /// The stage of the cycle.
    pub fn state(&self) -> (r: CaptureState)
        ensures
            r == self.state_spec(),
    {
        self.state
    }

    /// Number of frames gathered so far.
    pub fn window_len(&self) -> (r: usize)
        ensures
            r == self.window_spec().len(),
    {
        self.window.len()
    }

    /// Turns measurement mode on (from `Off` to `Armed`) or off (from any other stage),
    /// dropping the gathered frames.
    pub fn toggle_measurement_mode(&mut self)
        requires
            old(self).wf(),
        ensures
            final(self).wf(),
            final(self).state_spec() == (if old(self).state_spec() == CaptureState::Off {
                CaptureState::Armed
            } else {
                CaptureState::Off
            }),
            final(self).window_spec().len() == 0,
            final(self).target_spec() == old(self).target_spec(),
            final(self).threshold_spec() == old(self).threshold_spec(),
    {
        self.state = match self.state {
            CaptureState::Off => CaptureState::Armed,
            _ => CaptureState::Off,
        };
        self.window.clear();
    }

    /// The capture button: `Armed` starts a capture with an empty window, `Capturing`
    /// stops it, `Done` turns measurement off, and `Off` stays as it is.
    pub fn capture_button_clicked(&mut self)
        requires
            old(self).wf(),
        ensures
            final(self).wf(),
            final(self).target_spec() == old(self).target_spec(),
            final(self).threshold_spec() == old(self).threshold_spec(),
            match old(self).state_spec() {
                CaptureState::Armed => final(self).state_spec() == CaptureState::Capturing
                    && final(self).window_spec().len() == 0,
                CaptureState::Capturing => final(self).state_spec() == CaptureState::Armed
                    && final(self).window_spec() == old(self).window_spec(),
                CaptureState::Done => final(self).state_spec() == CaptureState::Off
                    && final(self).window_spec() == old(self).window_spec(),
                CaptureState::Off => final(self).state_spec() == CaptureState::Off
                    && final(self).window_spec() == old(self).window_spec(),
            },
    {
        match self.state {
            CaptureState::Armed => {
                self.window.clear();
                self.state = CaptureState::Capturing;
            },
            CaptureState::Capturing => {
                self.state = CaptureState::Armed;
            },
            CaptureState::Done => {
                self.state = CaptureState::Off;
            },
            CaptureState::Off => {},
        }
    }

    /// The end of a tick: a capture that completed arms the machine for the next one.
    pub fn finish_tick(&mut self)
        requires
            old(self).wf(),
        ensures
            final(self).wf(),
            final(self).state_spec() == (if old(self).state_spec() == CaptureState::Done {
                CaptureState::Armed
            } else {
                old(self).state_spec()
            }),
            final(self).window_spec() == old(self).window_spec(),
            final(self).target_spec() == old(self).target_spec(),
            final(self).threshold_spec() == old(self).threshold_spec(),
    {
        if self.state == CaptureState::Done {
            self.state = CaptureState::Armed;
        }
    }

    /// Feeds one analysis result. While capturing it enters the window, the oldest
    /// frame leaving once the window is over size; when the window is then full and
    /// stable the capture completes, and the window is returned and emptied. In any
    /// other stage the frame is ignored.
    pub fn push_frame(&mut self, frame: AnalysisResult) -> (r: Option<Vec<AnalysisResult>>)
        requires
            old(self).wf(),
        ensures
            final(self).wf(),
            final(self).target_spec() == old(self).target_spec(),
            final(self).threshold_spec() == old(self).threshold_spec(),
            ({
                let s = step(
                    old(self).state_spec(),
                    old(self).window_spec(),
                    frame,
                    old(self).target_spec(),
                    old(self).threshold_spec(),
                );
                &&& final(self).state_spec() == s.0
                &&& final(self).window_spec() == s.1
                &&& match r {
                    Some(v) => s.2 == Some(v@),
                    None => s.2 is None,
                }
            }),
    {
        if self.state != CaptureState::Capturing {
            return None;
        }
        let ghost w = self.window@;
        self.window.push(frame);
        if self.window.len() > self.target {
            self.window.remove(0);
        }
        assert(self.window@ =~= slide(w, frame, self.target as nat));
        if self.window.len() == self.target && check_stability(&self.window, self.threshold) {
            self.state = CaptureState::Done;
            let mut handed: Vec<AnalysisResult> = Vec::new();
            std::mem::swap(&mut handed, &mut self.window);
            return Some(handed);
        }
        None
    }
}

proof fn lemma_run_gathers(frames: Seq<AnalysisResult>, target: nat, threshold: u32, k: int)
    requires
        0 <= k < target,
        k <= frames.len(),
    ensures
        run(CaptureState::Capturing, Seq::empty(), frames.subrange(0, k), target, threshold)
            == (CaptureState::Capturing, frames.subrange(0, k), Seq::<Seq<AnalysisResult>>::empty()),
    decreases k,
{
    if k > 0 {
        let prefix = frames.subrange(0, k);
        assert(prefix.drop_last() =~= frames.subrange(0, k - 1));
        lemma_run_gathers(frames, target, threshold, k - 1);
        assert(frames.subrange(0, k - 1).push(prefix.last()) =~= prefix);
    }
}

/// Fed to a machine that has just started capturing, `target` frames that all name the
/// same note with a confidence above the threshold complete the capture exactly once,
/// at the last frame, and hand over exactly those frames.
pub proof fn lemma_steady_note_completes(
    frames: Seq<AnalysisResult>,
    target: nat,
    threshold: u32,
)
    requires
        target > 0,
        frames.len() == target,
        note_of(frames[0]) is Some,
        forall|i: int|
            0 <= i < frames.len() ==> #[trigger] note_of(frames[i]) == note_of(frames[0])
                && is_confident(frames[i], threshold),
    ensures
        run(CaptureState::Capturing, Seq::empty(), frames, target, threshold) == (
            CaptureState::Done,
            Seq::<AnalysisResult>::empty(),
            seq![frames],
        ),
{
    let k = target - 1;
    lemma_run_gathers(frames, target, threshold, k);
    assert(frames.drop_last() =~= frames.subrange(0, k));
    assert(frames.subrange(0, k).push(frames.last()) =~= frames);
    assert(is_stable(frames, threshold));
    assert(Seq::<Seq<AnalysisResult>>::empty().push(frames) =~= seq![frames]);
}

/// Fed to a machine that has just started capturing, `target` frames among which two
/// name different notes (or one names none) leave the machine capturing, with nothing
/// handed over.
pub proof fn lemma_dissimilar_note_blocks(
    frames: Seq<AnalysisResult>,
    target: nat,
    threshold: u32,
    j: int,
    k: int,
)
    requires
        target > 0,
        frames.len() == target,
        0 <= j < frames.len(),
        0 <= k < frames.len(),
        note_of(frames[j]) != note_of(frames[k]),
    ensures
        run(CaptureState::Capturing, Seq::empty(), frames, target, threshold).0
            == CaptureState::Capturing,
        run(CaptureState::Capturing, Seq::empty(), frames, target, threshold).2.len() == 0,
{
    let last = target - 1;
    lemma_run_gathers(frames, target, threshold, last);
    assert(frames.drop_last() =~= frames.subrange(0, last));
    assert(frames.subrange(0, last).push(frames.last()) =~= frames);
    if is_stable(frames, threshold) {
        assert(note_of(frames[j]) == note_of(frames[0]));
        assert(note_of(frames[k]) == note_of(frames[0]));
    }
}

} // verus!
