use tuner_core::capture::CaptureState;
use tuner_core::controller::{Action, CaptureOutcome, Message, TunerController, TuningMode};
use tuner_core::inharmonicity::{InharmonicityProfile, KeyMeasurement, Partial};
use tuner_core::AnalysisResult;

fn frame(note: &str, freq: f32, confidence: f32) -> AnalysisResult {
    AnalysisResult {
        detected_frequency: Some(freq.to_bits()),
        confidence: Some(confidence.to_bits()),
        cents_deviation: Some(0.0f32.to_bits()),
        note_name: Some(note.to_string()),
        spectrogram_data: vec![],
        partials: vec![(2.0 * freq).to_bits()],
    }
}

fn controller() -> TunerController {
    TunerController::new(3, 0.9f32.to_bits())
}

#[test]
fn starts_in_auto_with_tools_shown() {
    let c = controller();
    assert_eq!(c.tuning_mode, TuningMode::Auto);
    assert_eq!(c.capture.state(), CaptureState::Off);
    assert!(c.spectrogram_visible && c.cent_meter_visible && c.key_select_visible && c.partials_visible);
    assert_eq!(c.profile.len(), 0);
}

#[test]
fn selecting_a_key_twice_returns_to_auto() {
    let mut c = controller();
    c.record_cents(Some(3.0f32.to_bits()));
    assert_eq!(c.update(Message::KeySelected(40)), Action::Nothing);
    assert!(c.smoothing_buffer.is_empty());
    assert_eq!(c.tuning_mode, TuningMode::Manual { key_index: 40 });
    c.update(Message::KeySelected(41));
    assert_eq!(c.tuning_mode, TuningMode::Manual { key_index: 41 });
    c.update(Message::KeySelected(41));
    assert_eq!(c.tuning_mode, TuningMode::Auto);
    c.update(Message::KeySelected(7));
    c.record_cents(Some(1.0f32.to_bits()));
    assert_eq!(c.update(Message::SwitchToAutoMode), Action::Nothing);
    assert!(c.smoothing_buffer.is_empty());
    assert_eq!(c.tuning_mode, TuningMode::Auto);
}

#[test]
fn toggles_flip_only_their_tool() {
    let mut c = controller();
    assert_eq!(c.update(Message::ToggleSpectrogram), Action::Nothing);
    assert!(!c.spectrogram_visible && c.cent_meter_visible);
    c.update(Message::ToggleCentMeter);
    c.update(Message::ToggleKeySelect);
    c.update(Message::TogglePartials);
    assert!(!c.cent_meter_visible && !c.key_select_visible && !c.partials_visible);
    c.update(Message::ToggleSpectrogram);
    assert!(c.spectrogram_visible);
}

#[test]
fn actions_for_outside_work() {
    let mut c = controller();
    assert_eq!(c.update(Message::SaveProfile), Action::SaveProfile);
    assert_eq!(c.update(Message::LoadProfile), Action::LoadProfile);
    assert_eq!(c.update(Message::Tick), Action::PollAnalysis);
    assert_eq!(c.update(Message::Exit), Action::Exit);
    assert_eq!(c.update(Message::Temperament), Action::Nothing);
    assert_eq!(c.update(Message::TuningProfile), Action::Nothing);
}

#[test]
fn capture_cycle_through_messages() {
    let mut c = controller();
    c.update(Message::ToggleMeasurementMode);
    assert_eq!(c.capture.state(), CaptureState::Armed);
    c.update(Message::CaptureButtonClicked);
    assert_eq!(c.capture.state(), CaptureState::Capturing);
    assert!(matches!(c.process_analysis_result(frame("A3", 220.0, 0.95)), CaptureOutcome::Pending));
    assert!(matches!(c.process_analysis_result(frame("A3", 220.5, 0.97)), CaptureOutcome::Pending));
    let out = c.process_analysis_result(frame("A3", 219.5, 0.93));
    let m = match out {
        CaptureOutcome::Completed(Some(m)) => m,
        other => panic!("expected a measurement, got {:?}", other),
    };
    assert_eq!(m.key_index, 36);
    assert_eq!(m.partials[0].frequency, 220.5f32.to_bits());
    assert_eq!(m.partials[1], Partial { number: 2, frequency: 441.0f32.to_bits() });
    assert_eq!(c.capture.state(), CaptureState::Done);
    c.store_measurement(m);
    assert_eq!(c.profile.len(), 1);
    c.finish_tick();
    assert_eq!(c.capture.state(), CaptureState::Armed);
    c.update(Message::ToggleMeasurementMode);
    assert_eq!(c.capture.state(), CaptureState::Off);
}

#[test]
fn loaded_profile_replaces_current() {
    let mut c = controller();
    c.store_measurement(KeyMeasurement { key_index: 5, partials: vec![], calculated_b: None });
    let mut loaded = InharmonicityProfile::new();
    loaded.record(KeyMeasurement { key_index: 9, partials: vec![], calculated_b: None });
    loaded.record(KeyMeasurement { key_index: 10, partials: vec![], calculated_b: None });
    c.replace_profile(loaded);
    let keys: Vec<u8> = c.profile.measurements.keys().copied().collect();
    assert_eq!(keys, vec![9, 10]);
}

#[test]
fn smoothing_keeps_five_most_recent() {
    let mut c = controller();
    for i in 0..7 {
        c.record_cents(Some((i as f32).to_bits()));
    }
    let kept: Vec<f32> = c.smoothing_buffer.iter().map(|b| f32::from_bits(*b)).collect();
    assert_eq!(kept, vec![2.0, 3.0, 4.0, 5.0, 6.0]);
    c.update(Message::ToggleSpectrogram);
    assert_eq!(c.smoothing_buffer.len(), 5);
    c.record_cents(None);
    assert!(c.smoothing_buffer.is_empty());
}
