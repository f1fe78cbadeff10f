use lora_phy::radio::{narrow_snr, RxQuality};

#[test]
fn narrow_snr_round_trips_in_range() {
    for snr in [-128i16, -100, -1, 0, 7, 42, 127] {
        assert_eq!(narrow_snr(snr) as i16, snr);
    }
}

#[test]
fn narrow_snr_truncates_at_edges() {
    assert_eq!(narrow_snr(127), 127);
    assert_eq!(narrow_snr(128), -128);
    assert_eq!(narrow_snr(-128), -128);
    assert_eq!(narrow_snr(-129), 127);
}

#[test]
fn narrow_snr_matches_primitive_truncation() {
    for snr in [
        -32768i16, -32767, -300, -257, -256, -255, -129, -128, -1, 0, 1, 127, 128, 129, 255, 256,
        300, 32767,
    ] {
        assert_eq!(narrow_snr(snr), snr as i8);
    }
}

#[test]
fn rx_quality_reports_constructed_values() {
    let quality = RxQuality::new(-80, 7);
    assert_eq!(quality.rssi(), -80);
    assert_eq!(quality.snr(), 7);
}
