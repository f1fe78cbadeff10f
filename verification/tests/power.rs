use lora_phy::effective_output_power;
use lora_phy::mod_params::ChipType;

#[test]
fn legacy_chip_clamps_high_request() {
    assert_eq!(effective_output_power(ChipType::Sx1276, 20), 14);
    assert_eq!(effective_output_power(ChipType::Sx1277, 20), 14);
    assert_eq!(effective_output_power(ChipType::Sx1278, 20), 14);
    assert_eq!(effective_output_power(ChipType::Sx1279, 20), 14);
}

#[test]
fn legacy_chip_passes_low_request() {
    assert_eq!(effective_output_power(ChipType::Sx1276, 10), 10);
}

#[test]
fn non_legacy_chip_passes_high_request() {
    assert_eq!(effective_output_power(ChipType::Sx1262, 20), 20);
    assert_eq!(effective_output_power(ChipType::Sx1261, 20), 20);
}

#[test]
fn clamp_boundary_at_ceiling() {
    assert_eq!(effective_output_power(ChipType::Sx1276, 14), 14);
    assert_eq!(effective_output_power(ChipType::Sx1276, 15), 14);
    assert_eq!(effective_output_power(ChipType::Sx1276, -3), -3);
}
