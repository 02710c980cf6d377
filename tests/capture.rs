use tuner_core::capture::{check_stability, CaptureMachine, CaptureState};
use tuner_core::AnalysisResult;

const TARGET: usize = 20;

fn threshold() -> u32 {
    0.9f32.to_bits()
}

fn frame(note: &str, confidence: f32) -> AnalysisResult {
    AnalysisResult {
        detected_frequency: Some(220.0f32.to_bits()),
        confidence: Some(confidence.to_bits()),
        cents_deviation: Some(0.0f32.to_bits()),
        note_name: Some(note.to_string()),
        spectrogram_data: vec![],
        partials: vec![],
    }
}

fn capturing_machine() -> CaptureMachine {
    let mut m = CaptureMachine::new(TARGET, threshold());
    m.toggle_measurement_mode();
    assert_eq!(m.state(), CaptureState::Armed);
    m.capture_button_clicked();
    assert_eq!(m.state(), CaptureState::Capturing);
    m
}

#[test]
fn steady_note_completes_once_with_full_window() {
    let mut m = capturing_machine();
    let mut handed = Vec::new();
    for i in 0..TARGET {
        let out = m.push_frame(frame("A3", 0.95));
        if i + 1 < TARGET {
            assert!(out.is_none());
            assert_eq!(m.state(), CaptureState::Capturing);
        }
        if let Some(w) = out {
            handed.push(w);
        }
    }
    assert_eq!(handed.len(), 1);
    assert_eq!(handed[0].len(), TARGET);
    assert_eq!(m.state(), CaptureState::Done);
    assert_eq!(m.window_len(), 0);
    // Frames after completion are ignored until the next tick arms again.
    assert!(m.push_frame(frame("A3", 0.95)).is_none());
    m.finish_tick();
    assert_eq!(m.state(), CaptureState::Armed);
}

#[test]
fn one_dissimilar_note_prevents_completion() {
    for bad in 0..TARGET {
        let mut m = capturing_machine();
        for i in 0..TARGET {
            let note = if i == bad { "A#3" } else { "A3" };
            assert!(m.push_frame(frame(note, 0.95)).is_none());
        }
        assert_eq!(m.state(), CaptureState::Capturing);
        assert_eq!(m.window_len(), TARGET);
    }
}

#[test]
fn low_confidence_prevents_completion() {
    let mut m = capturing_machine();
    for i in 0..TARGET {
        let c = if i == 7 { 0.9 } else { 0.99 };
        assert!(m.push_frame(frame("C4", c)).is_none());
    }
    assert_eq!(m.state(), CaptureState::Capturing);
}

#[test]
fn window_slides_past_a_bad_frame() {
    let mut m = capturing_machine();
    assert!(m.push_frame(frame("E2", 0.95)).is_none());
    for _ in 0..TARGET - 1 {
        assert!(m.push_frame(frame("A3", 0.95)).is_none());
    }
    // The bad frame leaves the window with the next one.
    let out = m.push_frame(frame("A3", 0.95));
    let w = out.expect("capture completes once the window holds only A3");
    assert_eq!(w.len(), TARGET);
    assert!(w.iter().all(|f| f.note_name.as_deref() == Some("A3")));
}

#[test]
fn frames_are_ignored_unless_capturing() {
    let mut m = CaptureMachine::new(2, threshold());
    assert!(m.push_frame(frame("A3", 0.95)).is_none());
    assert!(m.push_frame(frame("A3", 0.95)).is_none());
    assert_eq!(m.window_len(), 0);
    m.toggle_measurement_mode();
    assert!(m.push_frame(frame("A3", 0.95)).is_none());
    assert_eq!(m.window_len(), 0);
}

#[test]
fn capture_button_cycle() {
    let mut m = CaptureMachine::new(3, threshold());
    m.capture_button_clicked();
    assert_eq!(m.state(), CaptureState::Off);
    m.toggle_measurement_mode();
    m.capture_button_clicked();
    assert!(m.push_frame(frame("A3", 0.95)).is_none());
    m.capture_button_clicked();
    assert_eq!(m.state(), CaptureState::Armed);
    // Starting again begins with an empty window.
    m.capture_button_clicked();
    assert_eq!(m.window_len(), 0);
    m.toggle_measurement_mode();
    assert_eq!(m.state(), CaptureState::Off);
}

#[test]
fn done_then_button_turns_measurement_off() {
    let mut m = CaptureMachine::new(1, threshold());
    m.toggle_measurement_mode();
    m.capture_button_clicked();
    assert!(m.push_frame(frame("A3", 0.95)).is_some());
    assert_eq!(m.state(), CaptureState::Done);
    m.capture_button_clicked();
    assert_eq!(m.state(), CaptureState::Off);
}

#[test]
fn stability_rules() {
    assert!(!check_stability(&vec![], threshold()));
    assert!(check_stability(&vec![frame("A3", 0.95), frame("A3", 0.91)], threshold()));
    assert!(!check_stability(&vec![frame("A3", 0.95), frame("A4", 0.95)], threshold()));
    let mut missing = frame("A3", 0.95);
    missing.confidence = None;
    assert!(!check_stability(&vec![frame("A3", 0.95), missing], threshold()));
    let mut unnamed = frame("A3", 0.95);
    unnamed.note_name = None;
    assert!(!check_stability(&vec![unnamed.clone(), unnamed], threshold()));
}
