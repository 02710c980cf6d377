use tuner_core::inharmonicity::{InharmonicityProfile, KeyMeasurement, Partial};

fn p(number: u32, frequency: f32) -> Partial {
    Partial { number, frequency: frequency.to_bits() }
}

#[test]
fn regression_points_keep_usable_partials() {
    let m = KeyMeasurement {
        key_index: 36,
        partials: vec![p(1, 220.0), p(0, 440.0), p(2, 441.0), p(3, -5.0), p(4, 882.0), p(5, f32::NAN)],
        calculated_b: None,
    };
    let points = m.regression_points().unwrap();
    assert_eq!(points, vec![p(1, 220.0), p(2, 441.0), p(4, 882.0)]);
}

#[test]
fn fewer_than_three_usable_partials_give_none() {
    let m = KeyMeasurement { key_index: 0, partials: vec![p(1, 27.5), p(2, 55.1)], calculated_b: None };
    assert!(m.regression_points().is_none());
    let m = KeyMeasurement {
        key_index: 0,
        partials: vec![p(1, 27.5), p(2, 0.0), p(3, 82.6)],
        calculated_b: None,
    };
    assert!(m.regression_points().is_none());
}

#[test]
fn profile_overwrites_by_key() {
    let mut profile = InharmonicityProfile::new();
    assert_eq!(profile.len(), 0);
    profile.record(KeyMeasurement { key_index: 48, partials: vec![p(1, 440.0)], calculated_b: None });
    profile.record(KeyMeasurement { key_index: 36, partials: vec![p(1, 220.0)], calculated_b: None });
    profile.record(KeyMeasurement { key_index: 48, partials: vec![p(1, 441.0)], calculated_b: None });
    assert_eq!(profile.len(), 2);
    assert_eq!(profile.measurements[&48].partials[0].frequency, 441.0f32.to_bits());
    let keys: Vec<u8> = profile.measurements.keys().copied().collect();
    assert_eq!(keys, vec![36, 48]);
    assert_eq!(InharmonicityProfile::default().len(), 0);
}
