use airsoft_v2::keypad::{column_mask, decode_scan, key_at, Debouncer};

#[test]
fn held_key_reports_at_most_once() {
    let mut debouncer = Debouncer::new(100);
    assert_eq!(debouncer.filter(Some('5'), 0), Some('5'));
    // Held across many polls, inside and past the debounce window: silent.
    for t in 1..50u64 {
        assert_eq!(debouncer.filter(Some('5'), t * 40), None);
    }
}

#[test]
fn release_and_repress_reports_exactly_once_more() {
    let mut debouncer = Debouncer::new(100);
    assert_eq!(debouncer.filter(Some('5'), 0), Some('5'));
    assert_eq!(debouncer.filter(Some('5'), 50), None);
    // Release clears the state immediately.
    assert_eq!(debouncer.filter(None, 60), None);
    // The next press registers once.
    assert_eq!(debouncer.filter(Some('5'), 200), Some('5'));
    assert_eq!(debouncer.filter(Some('5'), 240), None);
}

#[test]
fn switching_keys_reports_the_new_key() {
    let mut debouncer = Debouncer::new(100);
    assert_eq!(debouncer.filter(Some('1'), 0), Some('1'));
    assert_eq!(debouncer.filter(Some('2'), 10), Some('2'));
    assert_eq!(debouncer.filter(Some('2'), 20), None);
}

#[test]
fn key_legend_matches_matrix() {
    assert_eq!(key_at(0, 0), 'd');
    assert_eq!(key_at(0, 2), '0');
    assert_eq!(key_at(1, 1), '9');
    assert_eq!(key_at(2, 3), '4');
    assert_eq!(key_at(3, 0), 'a');
    assert_eq!(key_at(3, 3), '1');
}

#[test]
fn decode_scan_finds_first_low_row() {
    // All rows high: no key.
    assert_eq!(decode_scan(0xFF, 0), None);
    assert_eq!(decode_scan(0x0F, 2), None);
    // Row 0 low.
    assert_eq!(decode_scan(0xFE, 0), Some('d'));
    // Row 2 low (bits 0 and 1 high).
    assert_eq!(decode_scan(0xFB, 1), Some('6'));
    // Several rows low: the lowest wins.
    assert_eq!(decode_scan(0xF0, 3), Some('*'));
}

#[test]
fn column_mask_drives_one_column_low() {
    assert_eq!(column_mask(0), 0xEF);
    assert_eq!(column_mask(1), 0xDF);
    assert_eq!(column_mask(2), 0xBF);
    assert_eq!(column_mask(3), 0x7F);
}
