//! Decision logic of a piano tuner: note naming, the choices made over spectra and
//! normalized difference values, the stability-gated capture of a held note, the
//! selection of the measured frame, and the keyed store of per-key measurements.
//!
//! Real-valued quantities (frequencies, magnitudes, confidences) are carried as the
//! IEEE-754 bit patterns of single-precision values. For values that are neither
//! negative nor NaN, the integer order of the patterns is the numeric order, so
//! comparisons here are comparisons of the quantities themselves; the arithmetic on
//! them is done by the caller.
use vstd::prelude::*;

pub mod capture;
pub mod capture_processing;
pub mod controller;
pub mod display;
pub mod inharmonicity;
pub mod keyboard;
pub mod pitch;
pub mod tuning;

verus! {

/// A single-precision quantity carried as its IEEE-754 bit pattern.
pub type Bits32 = u32;

/// Number of samples in one analysis frame.
pub const BUFFER_SIZE: usize = 2048;

/// The outcome of analysing one frame of audio.
///
/// `detected_frequency`, `cents_deviation` and `note_name` are present together or
/// absent together: they are absent when no pitch was found in the frame.
#[derive(Clone, Debug)]
pub struct AnalysisResult {
    /// The detected fundamental frequency in Hz.
    pub detected_frequency: Option<Bits32>,
    /// The confidence of the detection, between 0 and 1.
    pub confidence: Option<Bits32>,
    /// Deviation from the nearest equal-tempered note, in cents.
    pub cents_deviation: Option<Bits32>,
    /// Name of the nearest equal-tempered note.
    pub note_name: Option<String>,
    /// Magnitude spectrum of the frame.
    pub spectrogram_data: Vec<Bits32>,
    /// Frequencies of the detected overtones, the second harmonic first.
    pub partials: Vec<Bits32>,
}

impl AnalysisResult {
    /// The frequency, the deviation and the note name are present together or absent
    /// together.
    pub open spec fn is_consistent(&self) -> bool {
        &&& (self.detected_frequency is Some) == (self.cents_deviation is Some)
        &&& (self.cents_deviation is Some) == (self.note_name is Some)
    }

    /// A result for a frame in which nothing was detected.
    pub fn empty() -> (r: AnalysisResult)
        ensures
            r.is_consistent(),
            r.detected_frequency is None,
            r.confidence is None,
            r.cents_deviation is None,
            r.note_name is None,
            r.spectrogram_data@.len() == 0,
            r.partials@.len() == 0,
    {
        AnalysisResult {
            detected_frequency: None,
            confidence: None,
            cents_deviation: None,
            note_name: None,
            spectrogram_data: Vec::new(),
            partials: Vec::new(),
        }
    }
}

} // verus!
