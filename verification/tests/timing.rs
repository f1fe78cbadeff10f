use lora_phy::mod_params::{
    Bandwidth, BoardType, CodingRate, ModulationParams, PacketParams, PacketStatus, RadioError,
    SpreadingFactor,
};
use lora_phy::mod_traits::RadioKind;
use lora_phy::LoRa;

/// Minimal driver: only the board identity matters to the timing constants.
struct BoardOnlyRadio {
    board_type: BoardType,
}

impl RadioKind for BoardOnlyRadio {
    // The specification-level board identity; never called at run time.
    fn board_type(&self) -> BoardType {
        self.board_type
    }

    fn get_board_type(&self) -> BoardType {
        self.board_type
    }

    fn create_modulation_params(
        &mut self,
        spreading_factor: SpreadingFactor,
        bandwidth: Bandwidth,
        coding_rate: CodingRate,
        frequency_in_hz: u32,
    ) -> Result<ModulationParams, RadioError> {
        Ok(ModulationParams { spreading_factor, bandwidth, coding_rate, frequency_in_hz })
    }

    fn prepare_for_tx(
        &mut self,
        _mdltn_params: &ModulationParams,
        _output_power: i32,
        _ramp_time_override: bool,
    ) -> Result<(), RadioError> {
        Ok(())
    }

    fn tx(
        &mut self,
        _mdltn_params: &ModulationParams,
        _packet_params: &mut PacketParams,
        _buffer: &[u8],
        _timeout_in_ms: u32,
    ) -> Result<(), RadioError> {
        Ok(())
    }

    fn prepare_for_rx(
        &mut self,
        _mdltn_params: &ModulationParams,
        _rx_pkt_params: &PacketParams,
        _listen_duration_ms: Option<u32>,
        _rx_boost_override: Option<bool>,
    ) -> Result<(), RadioError> {
        Ok(())
    }

    fn rx(
        &mut self,
        _rx_pkt_params: &PacketParams,
        _receiving_buffer: &mut Vec<u8>,
    ) -> Result<(u8, PacketStatus), RadioError> {
        Ok((0, PacketStatus { rssi: 0, snr: 0 }))
    }
}

fn device(board_type: BoardType) -> LoRa<BoardOnlyRadio> {
    LoRa::new(BoardOnlyRadio { board_type })
}

#[test]
fn rx_window_offset_per_board() {
    assert_eq!(device(BoardType::Rak4631Sx1262).get_rx_window_offset_ms(), -15);
    assert_eq!(device(BoardType::Stm32l0Sx1276).get_rx_window_offset_ms(), -15);
    assert_eq!(device(BoardType::Stm32wlSx1262).get_rx_window_offset_ms(), -50);
}

#[test]
fn rx_window_duration_per_board() {
    assert_eq!(device(BoardType::Rak4631Sx1262).get_rx_window_duration_ms(), 1050);
    assert_eq!(device(BoardType::Stm32l0Sx1276).get_rx_window_duration_ms(), 1003);
    assert_eq!(device(BoardType::Stm32wlSx1262).get_rx_window_duration_ms(), 1050);
}

#[test]
fn rx_window_defaults_for_other_boards() {
    assert_eq!(device(BoardType::GenericSx1261).get_rx_window_offset_ms(), -50);
    assert_eq!(device(BoardType::GenericSx1261).get_rx_window_duration_ms(), 1050);
}
