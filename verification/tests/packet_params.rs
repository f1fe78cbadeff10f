use lora_phy::mod_params::PacketParams;

#[test]
fn tx_packet_params_fixed_framing() {
    let params = PacketParams::new_for_tx();
    assert_eq!(params.preamble_length, 8);
    assert!(!params.implicit_header);
    assert!(params.crc_on);
    assert!(!params.iq_inverted);
    assert_eq!(params.payload_length, 0);
}

#[test]
fn rx_packet_params_fixed_framing() {
    let params = PacketParams::new_for_rx(32);
    assert_eq!(params.preamble_length, 8);
    assert!(!params.implicit_header);
    assert!(params.crc_on);
    assert!(params.iq_inverted);
    assert_eq!(params.payload_length, 32);
}

#[test]
fn rx_packet_params_payload_tracks_buffer() {
    for len in [0u8, 1, 51, 255] {
        assert_eq!(PacketParams::new_for_rx(len).payload_length, len);
    }
}
