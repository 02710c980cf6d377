use tuner_core::keyboard::{
    is_black_key, white_key_index, white_keys_before, KeyHighlight, PianoKeyboard, TOTAL_KEY_COUNT,
    WHITE_KEY_COUNT,
};

#[test]
fn black_keys_follow_the_octave_pattern() {
    let black: Vec<u8> = (0..12u8).filter(|&k| is_black_key(k)).collect();
    assert_eq!(black, vec![1, 4, 6, 9, 11]);
    assert!(!is_black_key(87));
    assert!(is_black_key(85));
}

#[test]
fn white_key_count_is_fifty_two() {
    assert_eq!(white_keys_before(TOTAL_KEY_COUNT as u8), WHITE_KEY_COUNT);
    assert_eq!(WHITE_KEY_COUNT, 52);
    assert_eq!(white_keys_before(0), 0);
    assert_eq!(white_keys_before(3), 2);
}

#[test]
fn white_key_positions_map_to_keys() {
    assert_eq!(white_key_index(0), Some(0));
    assert_eq!(white_key_index(1), Some(2));
    assert_eq!(white_key_index(2), Some(3));
    assert_eq!(white_key_index(51), Some(87));
    assert_eq!(white_key_index(52), None);
}

#[test]
fn selection_wins_over_detection() {
    let k = PianoKeyboard::new(Some(40), Some(40));
    assert_eq!(k.highlight(40), KeyHighlight::Selected);
    let k = PianoKeyboard::new(Some(40), Some(12));
    assert_eq!(k.highlight(40), KeyHighlight::Detected);
    assert_eq!(k.highlight(12), KeyHighlight::Selected);
    assert_eq!(k.highlight(3), KeyHighlight::Plain);
    assert_eq!(k.detected_key_index(), Some(40));
    assert_eq!(k.selected_key_index(), Some(12));
}
