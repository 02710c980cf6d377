//! The tuner's state and the decisions it takes on each message: the tuning mode, the
//! visibility of the tools, the capture cycle and the profile of measured keys.
//!
//! What the decisions ask of the outside world (polling the analysis channel, saving
//! or loading the profile, exiting) is returned as an `Action` for the caller to
//! perform.
use vstd::prelude::*;

use crate::capture::{step, CaptureMachine, CaptureState};
use crate::capture_processing::{best_confidence_outcome, process, ProcessingOperation};
use crate::inharmonicity::{InharmonicityProfile, KeyMeasurement};
use crate::{AnalysisResult, Bits32};

verus! {

/// Number of recent cents deviations that the shown deviation is smoothed over.
pub const SMOOTHING_FACTOR: usize = 5;

/// The recent deviations after `cents` arrives: a deviation joins them, the oldest
/// leaving beyond `SMOOTHING_FACTOR`; a frame without one empties them.
pub open spec fn smoothing_after(h: Seq<Bits32>, cents: Option<Bits32>) -> Seq<Bits32> {
    match cents {
        Some(c) => if h.len() + 1 > SMOOTHING_FACTOR {
            h.push(c).drop_first()
        } else {
            h.push(c)
        },
        None => Seq::empty(),
    }
}

/// A message to the tuner, from the user or from the update timer.
#[derive(Clone, Copy, Debug, PartialEq, Eq, Structural)]
pub enum Message {
    /// The user picked a piano key (0 to 87).
    KeySelected(u8),
    /// Back to detecting whatever note is played.
    SwitchToAutoMode,
    /// Turn measurement mode on or off.
    ToggleMeasurementMode,
    /// The capture button; what it does depends on the capture stage.
    CaptureButtonClicked,
    /// Save the profile.
    SaveProfile,
    /// Load the profile.
    LoadProfile,
    /// Temperament settings; no effect yet.
    Temperament,
    /// Tuning standard settings; no effect yet.
    TuningStandard,
    /// Inharmonicity curve adjustment; no effect yet.
    InharmonicCurve,
    /// Sample buffer adjustment; no effect yet.
    SampleBuffer,
    /// Tuning profile management; no effect yet.
    TuningProfile,
    /// Quit.
    Exit,
    /// Show or hide the spectrogram.
    ToggleSpectrogram,
    /// Show or hide the cent meter.
    ToggleCentMeter,
    /// Show or hide the keyboard.
    ToggleKeySelect,
    /// Show or hide the partials.
    TogglePartials,
    /// The update timer fired.
    Tick,
}

/// Which note the deviation is measured against.
#[derive(Clone, Copy, Debug, PartialEq, Eq, Structural)]
pub enum TuningMode {
    /// The nearest note to whatever is played.
    Auto,
    /// The key the user picked.
    Manual { key_index: u8 },
}

/// What the caller is to do after a message.
#[derive(Clone, Copy, Debug, PartialEq, Eq, Structural)]
pub enum Action {
    /// Nothing.
    Nothing,
    /// Write the profile out.
    SaveProfile,
    /// Read a profile in and hand it to `replace_profile`.
    LoadProfile,
    /// Feed each pending analysis result to `process_analysis_result`, then call
    /// `finish_tick`.
    PollAnalysis,
    /// Stop the analysis and quit.
    Exit,
}

/// What feeding one analysis result led to.
#[derive(Clone, Debug)]
pub enum CaptureOutcome {
    /// No capture completed.
    Pending,
    /// A capture completed; the measurement made from its window, if it named a note.
    Completed(Option<KeyMeasurement>),
}

/// The tuning mode after the user picks key `k` in mode `mode`: picking the key
/// already picked goes back to automatic detection.
pub open spec fn mode_after_key(mode: TuningMode, k: u8) -> TuningMode {
    if mode == (TuningMode::Manual { key_index: k }) {
        TuningMode::Auto
    } else {
        TuningMode::Manual { key_index: k }
    }
}

/// The tuner's state.
pub struct TunerController {
    /// The capture cycle.
    pub capture: CaptureMachine,
    /// The measured keys.
    pub profile: InharmonicityProfile,
    /// The reference for the deviation shown.
    pub tuning_mode: TuningMode,
    /// Whether the spectrogram is shown.
    pub spectrogram_visible: bool,
    /// Whether the cent meter is shown.
    pub cent_meter_visible: bool,
    /// Whether the keyboard is shown.
    pub key_select_visible: bool,
    /// Whether the partials are shown.
    pub partials_visible: bool,
    /// The most recent cents deviations against the reference note, oldest first.
    pub smoothing_buffer: Vec<Bits32>,
}

impl TunerController {
    /// The state is consistent.
    pub open spec fn wf(&self) -> bool {
        &&& self.capture.wf()
        &&& self.smoothing_buffer@.len() <= SMOOTHING_FACTOR
    }

    /// A tuner in automatic mode with every tool shown, measurement off and an empty
    /// profile; a capture needs `stability_target` frames with a confidence above
    /// `confidence_threshold`.
    pub fn new(stability_target: usize, confidence_threshold: u32) -> (r: TunerController)
        requires
            stability_target > 0,
        ensures
            r.wf(),
            r.capture.state_spec() == CaptureState::Off,
            r.capture.target_spec() == stability_target,
            r.capture.threshold_spec() == confidence_threshold,
            r.profile.measurements@.len() == 0,
            r.tuning_mode == TuningMode::Auto,
            r.spectrogram_visible,
            r.cent_meter_visible,
            r.key_select_visible,
            r.partials_visible,
            r.smoothing_buffer@.len() == 0,
    {
        let profile = InharmonicityProfile::new();
        assert(profile.measurements@ =~= Map::<u8, KeyMeasurement>::empty());
        TunerController {
            capture: CaptureMachine::new(stability_target, confidence_threshold),
            profile,
            tuning_mode: TuningMode::Auto,
            spectrogram_visible: true,
            cent_meter_visible: true,
            key_select_visible: true,
            partials_visible: true,
            smoothing_buffer: Vec::new(),
        }
    }

    /// Takes the decision for `message` and says what the caller is to do.
    pub fn update(&mut self, message: Message) -> (r: Action)
        requires
            old(self).wf(),
        ensures
            final(self).wf(),
            final(self).profile == old(self).profile,
            final(self).capture.target_spec() == old(self).capture.target_spec(),
            final(self).capture.threshold_spec() == old(self).capture.threshold_spec(),
            final(self).tuning_mode == (match message {
                Message::KeySelected(k) => mode_after_key(old(self).tuning_mode, k),
                Message::SwitchToAutoMode => TuningMode::Auto,
                _ => old(self).tuning_mode,
            }),
            final(self).spectrogram_visible == (old(self).spectrogram_visible != (message
                == Message::ToggleSpectrogram)),
            final(self).cent_meter_visible == (old(self).cent_meter_visible != (message
                == Message::ToggleCentMeter)),
            final(self).key_select_visible == (old(self).key_select_visible != (message
                == Message::ToggleKeySelect)),
            final(self).partials_visible == (old(self).partials_visible != (message
                == Message::TogglePartials)),
            message == Message::ToggleMeasurementMode ==> final(self).capture.state_spec() == (
            if old(self).capture.state_spec() == CaptureState::Off {
                CaptureState::Armed
            } else {
                CaptureState::Off
            }) && final(self).capture.window_spec().len() == 0,
            message == Message::CaptureButtonClicked ==> final(self).capture.state_spec() == (
            match old(self).capture.state_spec() {
                CaptureState::Armed => CaptureState::Capturing,
                CaptureState::Capturing => CaptureState::Armed,
                CaptureState::Done => CaptureState::Off,
                CaptureState::Off => CaptureState::Off,
            }),
            message == Message::CaptureButtonClicked && old(self).capture.state_spec()
                == CaptureState::Armed ==> final(self).capture.window_spec().len() == 0,
            message == Message::CaptureButtonClicked && old(self).capture.state_spec()
                != CaptureState::Armed ==> final(self).capture.window_spec() == old(
                self,
            ).capture.window_spec(),
            message != Message::ToggleMeasurementMode && message != Message::CaptureButtonClicked
                ==> final(self).capture.state_spec() == old(self).capture.state_spec()
                && final(self).capture.window_spec() == old(self).capture.window_spec(),
            final(self).smoothing_buffer@ == (match message {
                Message::KeySelected(_) => Seq::empty(),
                Message::SwitchToAutoMode => Seq::empty(),
                _ => old(self).smoothing_buffer@,
            }),
            r == (match message {
                Message::SaveProfile => Action::SaveProfile,
                Message::LoadProfile => Action::LoadProfile,
                Message::Exit => Action::Exit,
                Message::Tick => Action::PollAnalysis,
                _ => Action::Nothing,
            }),
    {
        match message {
            Message::Exit => Action::Exit,
            Message::KeySelected(k) => {
                if self.tuning_mode == (TuningMode::Manual { key_index: k }) {
                    self.tuning_mode = TuningMode::Auto;
                } else {
                    self.tuning_mode = TuningMode::Manual { key_index: k };
                }
                self.smoothing_buffer.clear();
                Action::Nothing
            },
            Message::SwitchToAutoMode => {
                self.tuning_mode = TuningMode::Auto;
                self.smoothing_buffer.clear();
                Action::Nothing
            },
            Message::ToggleMeasurementMode => {
                self.capture.toggle_measurement_mode();
                Action::Nothing
            },
            Message::CaptureButtonClicked => {
                self.capture.capture_button_clicked();
                Action::Nothing
            },
            Message::SaveProfile => Action::SaveProfile,
            Message::LoadProfile => Action::LoadProfile,
            Message::Temperament => Action::Nothing,
            Message::TuningStandard => Action::Nothing,
            Message::InharmonicCurve => Action::Nothing,
            Message::SampleBuffer => Action::Nothing,
            Message::TuningProfile => Action::Nothing,
            Message::ToggleSpectrogram => {
                self.spectrogram_visible = !self.spectrogram_visible;
                Action::Nothing
            },
            Message::ToggleCentMeter => {
                self.cent_meter_visible = !self.cent_meter_visible;
                Action::Nothing
            },
            Message::ToggleKeySelect => {
                self.key_select_visible = !self.key_select_visible;
                Action::Nothing
            },
            Message::TogglePartials => {
                self.partials_visible = !self.partials_visible;
                Action::Nothing
            },
            Message::Tick => Action::PollAnalysis,
        }
    }

    /// Feeds one analysis result to the capture cycle. When it completes a capture, the
    /// window is reduced to the measurement of its frame of highest confidence, which
    /// is returned for its B value to be computed before it is stored.
    pub fn process_analysis_result(&mut self, result: AnalysisResult) -> (r: CaptureOutcome)
        requires
            old(self).wf(),
        ensures
            final(self).wf(),
            final(self).profile == old(self).profile,
            final(self).tuning_mode == old(self).tuning_mode,
            final(self).spectrogram_visible == old(self).spectrogram_visible,
            final(self).cent_meter_visible == old(self).cent_meter_visible,
            final(self).key_select_visible == old(self).key_select_visible,
            final(self).partials_visible == old(self).partials_visible,
            final(self).smoothing_buffer@ == old(self).smoothing_buffer@,
            final(self).capture.target_spec() == old(self).capture.target_spec(),
            final(self).capture.threshold_spec() == old(self).capture.threshold_spec(),
            ({
                let s = step(
                    old(self).capture.state_spec(),
                    old(self).capture.window_spec(),
                    result,
                    old(self).capture.target_spec(),
                    old(self).capture.threshold_spec(),
                );
                &&& final(self).capture.state_spec() == s.0
                &&& final(self).capture.window_spec() == s.1
                &&& match s.2 {
                    Some(w) => r matches CaptureOutcome::Completed(m) && best_confidence_outcome(
                        w,
                        m,
                    ),
                    None => r is Pending,
                }
            }),
    {
        match self.capture.push_frame(result) {
            Some(window) => {
                match process(window, ProcessingOperation::BestConfidence) {
                    Ok(m) => CaptureOutcome::Completed(m),
                    Err(_) => CaptureOutcome::Completed(None),
                }
            },
            None => CaptureOutcome::Pending,
        }
    }

    /// The end of a tick, after the pending results were fed: a completed capture arms
    /// the cycle again.
    pub fn finish_tick(&mut self)
        requires
            old(self).wf(),
        ensures
            final(self).wf(),
            final(self).profile == old(self).profile,
            final(self).tuning_mode == old(self).tuning_mode,
            final(self).smoothing_buffer@ == old(self).smoothing_buffer@,
            final(self).capture.state_spec() == (if old(self).capture.state_spec()
                == CaptureState::Done {
                CaptureState::Armed
            } else {
                old(self).capture.state_spec()
            }),
            final(self).capture.window_spec() == old(self).capture.window_spec(),
            final(self).capture.target_spec() == old(self).capture.target_spec(),
            final(self).capture.threshold_spec() == old(self).capture.threshold_spec(),
    {
        self.capture.finish_tick();
    }

    /// Records the cents deviation of the latest frame against the reference note, or
    /// its absence.
    pub fn record_cents(&mut self, cents: Option<Bits32>)
        requires
            old(self).wf(),
        ensures
            final(self).wf(),
            final(self).smoothing_buffer@ == smoothing_after(old(self).smoothing_buffer@, cents),
            final(self).profile == old(self).profile,
            final(self).tuning_mode == old(self).tuning_mode,
            final(self).capture.state_spec() == old(self).capture.state_spec(),
            final(self).capture.window_spec() == old(self).capture.window_spec(),
            final(self).capture.target_spec() == old(self).capture.target_spec(),
            final(self).capture.threshold_spec() == old(self).capture.threshold_spec(),
    {
        match cents {
            Some(c) => {
                self.smoothing_buffer.push(c);
                if self.smoothing_buffer.len() > SMOOTHING_FACTOR {
                    self.smoothing_buffer.remove(0);
                }
            },
            None => {
                self.smoothing_buffer.clear();
            },
        }
    }

    /// Stores a finished measurement under its key, replacing what the key held.
    pub fn store_measurement(&mut self, measurement: KeyMeasurement)
        requires
            old(self).wf(),
        ensures
            final(self).wf(),
            final(self).profile.measurements@ == old(self).profile.measurements@.insert(
                measurement.key_index,
                measurement,
            ),
            final(self).tuning_mode == old(self).tuning_mode,
            final(self).smoothing_buffer@ == old(self).smoothing_buffer@,
            final(self).capture.state_spec() == old(self).capture.state_spec(),
            final(self).capture.window_spec() == old(self).capture.window_spec(),
    {
        self.profile.record(measurement);
    }

    /// Puts a loaded profile in place of the current one.
    pub fn replace_profile(&mut self, profile: InharmonicityProfile)
        requires
            old(self).wf(),
        ensures
            final(self).wf(),
            final(self).profile == profile,
            final(self).tuning_mode == old(self).tuning_mode,
            final(self).smoothing_buffer@ == old(self).smoothing_buffer@,
            final(self).capture.state_spec() == old(self).capture.state_spec(),
            final(self).capture.window_spec() == old(self).capture.window_spec(),
    {
        self.profile = profile;
    }
}

} // verus!
