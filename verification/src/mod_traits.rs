use vstd::prelude::*;

use crate::mod_params::{
    Bandwidth, BoardType, CodingRate, ModulationParams, PacketParams, PacketStatus, RadioError,
    SpreadingFactor,
};

verus! {

/// Interface a board-specific chip driver presents to the transceiver. The
/// driver owns register layouts and bus transactions; this layer only demands
/// what the sequencing logic relies on: the board identity never changes, a
/// successfully built modulation configuration carries exactly the requested
/// values, and a receive never reports more bytes than the framing allowed.
/// Every operation may fail with a driver-defined error, which the
/// transceiver passes through untouched.
pub trait RadioKind: Sized {
    /// Board the driver was built for, fixed at construction.
    spec fn board_type(&self) -> BoardType;

    /// Report the board the driver was built for.
    fn get_board_type(&self) -> (board_type: BoardType)
        ensures
            board_type == self.board_type(),
    ;

    /// Build a modulation configuration, checking it against the chip's own
    /// constraints. On success the configuration holds exactly the requested
    /// values; the driver may reject a combination its chip cannot modulate.
    fn create_modulation_params(
        &mut self,
        spreading_factor: SpreadingFactor,
        bandwidth: Bandwidth,
        coding_rate: CodingRate,
        frequency_in_hz: u32,
    ) -> (result: Result<ModulationParams, RadioError>)
        ensures
            final(self).board_type() == old(self).board_type(),
            result matches Ok(params) ==> {
                &&& params.spreading_factor == spreading_factor
                &&& params.bandwidth == bandwidth
                &&& params.coding_rate == coding_rate
                &&& params.frequency_in_hz == frequency_in_hz
            },
    ;

    /// Arm the chip for a transmission at the given output power, in dBm.
    /// When `ramp_time_override` is false the driver picks its own ramp and
    /// ready delay.
    fn prepare_for_tx(
        &mut self,
        mdltn_params: &ModulationParams,
        output_power: i32,
        ramp_time_override: bool,
    ) -> (result: Result<(), RadioError>)
        ensures
            final(self).board_type() == old(self).board_type(),
    ;

    /// Transmit one buffer, waiting at most `timeout_in_ms` milliseconds for
    /// the chip to signal completion. The driver records the payload length
    /// it sent in the framing configuration.
    fn tx(
        &mut self,
        mdltn_params: &ModulationParams,
        packet_params: &mut PacketParams,
        buffer: &[u8],
        timeout_in_ms: u32,
    ) -> (result: Result<(), RadioError>)
        ensures
            final(self).board_type() == old(self).board_type(),
    ;

    /// Arm the chip for a receive. `None` for the listen duration keeps the
    /// receiver open until a packet arrives; `None` for the boost override
    /// leaves the chip's receive gain at its default.
    fn prepare_for_rx(
        &mut self,
        mdltn_params: &ModulationParams,
        rx_pkt_params: &PacketParams,
        listen_duration_ms: Option<u32>,
        rx_boost_override: Option<bool>,
    ) -> (result: Result<(), RadioError>)
        ensures
            final(self).board_type() == old(self).board_type(),
    ;

    /// Wait for one packet and copy it into the caller's buffer. The buffer
    /// must be able to hold the framing's maximum payload; on success the
    /// reported byte count never exceeds that maximum, and the buffer keeps
    /// its length either way.
    fn rx(
        &mut self,
        rx_pkt_params: &PacketParams,
        receiving_buffer: &mut Vec<u8>,
    ) -> (result: Result<(u8, PacketStatus), RadioError>)
        requires
            rx_pkt_params.payload_length as int <= old(receiving_buffer)@.len(),
        ensures
            final(self).board_type() == old(self).board_type(),
            final(receiving_buffer)@.len() == old(receiving_buffer)@.len(),
            result matches Ok(packet) ==> packet.0 <= rx_pkt_params.payload_length,
    ;
}

} // verus!
