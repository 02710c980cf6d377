use tuner_core::capture_processing::{process, ProcessError, ProcessingOperation};
use tuner_core::inharmonicity::Partial;
use tuner_core::AnalysisResult;

fn frame(note: Option<&str>, freq: Option<f32>, confidence: Option<f32>, partials: &[f32]) -> AnalysisResult {
    AnalysisResult {
        detected_frequency: freq.map(f32::to_bits),
        confidence: confidence.map(f32::to_bits),
        cents_deviation: freq.map(|_| 0.0f32.to_bits()),
        note_name: note.map(|n| n.to_string()),
        spectrogram_data: vec![],
        partials: partials.iter().map(|p| p.to_bits()).collect(),
    }
}

#[test]
fn average_is_reported_unsupported() {
    let buffer = vec![frame(Some("A3"), Some(220.0), Some(0.95), &[])];
    assert_eq!(process(buffer, ProcessingOperation::Average).unwrap_err(), ProcessError::Unsupported);
}

#[test]
fn empty_window_gives_no_measurement() {
    assert!(process(vec![], ProcessingOperation::BestConfidence).unwrap().is_none());
}

#[test]
fn strict_maximum_confidence_is_chosen() {
    let buffer = vec![
        frame(Some("A3"), Some(219.0), Some(0.91), &[]),
        frame(Some("A3"), Some(221.0), Some(0.99), &[441.0]),
        frame(Some("A3"), Some(220.0), Some(0.95), &[]),
    ];
    let m = process(buffer, ProcessingOperation::BestConfidence).unwrap().unwrap();
    assert_eq!(m.key_index, 36);
    assert_eq!(
        m.partials,
        vec![
            Partial { number: 1, frequency: 221.0f32.to_bits() },
            Partial { number: 2, frequency: 441.0f32.to_bits() },
        ]
    );
    assert_eq!(m.calculated_b, None);
}

#[test]
fn tie_goes_to_first_frame() {
    let buffer = vec![
        frame(Some("A3"), Some(219.0), Some(0.95), &[]),
        frame(Some("A3"), Some(221.0), Some(0.95), &[]),
    ];
    let m = process(buffer, ProcessingOperation::BestConfidence).unwrap().unwrap();
    assert_eq!(m.partials[0].frequency, 219.0f32.to_bits());
}

#[test]
fn missing_confidence_counts_as_zero() {
    let buffer = vec![
        frame(Some("A3"), Some(219.0), None, &[]),
        frame(Some("B3"), Some(246.9), Some(0.1), &[]),
    ];
    let m = process(buffer, ProcessingOperation::BestConfidence).unwrap().unwrap();
    assert_eq!(m.key_index, 38);
}

#[test]
fn best_frame_without_note_gives_nothing() {
    let buffer = vec![
        frame(Some("A3"), Some(220.0), Some(0.5), &[]),
        frame(None, None, Some(0.97), &[]),
    ];
    assert!(process(buffer, ProcessingOperation::BestConfidence).unwrap().is_none());
}

#[test]
fn overtones_are_numbered_from_two() {
    let buffer = vec![frame(Some("A4"), Some(440.0), Some(0.98), &[880.5, 1321.0, 1763.0])];
    let m = process(buffer, ProcessingOperation::BestConfidence).unwrap().unwrap();
    assert_eq!(m.key_index, 48);
    let numbers: Vec<u32> = m.partials.iter().map(|p| p.number).collect();
    assert_eq!(numbers, vec![1, 2, 3, 4]);
    assert_eq!(m.partials[3].frequency, 1763.0f32.to_bits());
}

#[test]
fn empty_result_has_nothing() {
    let r = AnalysisResult::empty();
    assert!(r.detected_frequency.is_none() && r.confidence.is_none());
    assert!(r.cents_deviation.is_none() && r.note_name.is_none());
    assert!(r.spectrogram_data.is_empty() && r.partials.is_empty());
}
