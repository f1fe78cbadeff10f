pub mod mod_params;
pub mod mod_traits;
pub mod radio;
pub mod translate;

use vstd::prelude::*;

use crate::mod_params::{BoardType, ChipType, PacketParams, RadioError};
use crate::mod_traits::RadioKind;
use crate::radio::{narrow_snr, RfConfig, RxQuality, TxConfig};

verus! {

/// Highest transmit power the legacy chip family accepts, in dBm.
pub const DEFAULT_DBM: i8 = 14;

/// Whether the chip belongs to the legacy family whose transmit power is
/// capped at `DEFAULT_DBM`.
pub open spec fn is_legacy_chip(chip_type: ChipType) -> bool {
    match chip_type {
        ChipType::Sx1276 | ChipType::Sx1277 | ChipType::Sx1278 | ChipType::Sx1279 => true,
        _ => false,
    }
}

/// The transmit power actually handed to the chip for a requested power:
/// a legacy-family request above the ceiling is held at the ceiling, and
/// everything else passes through unchanged.
pub open spec fn effective_power(chip_type: ChipType, requested_dbm: i8) -> i8 {
    if is_legacy_chip(chip_type) && requested_dbm > DEFAULT_DBM {
        DEFAULT_DBM
    } else {
        requested_dbm
    }
}

/// Clamp a requested transmit power to what the chip may legally send. The
/// clamp is silent: it never fails and the caller is not told it happened.
pub fn effective_output_power(chip_type: ChipType, requested_dbm: i8) -> (effective_dbm: i8)
    ensures
        effective_dbm == effective_power(chip_type, requested_dbm),
        is_legacy_chip(chip_type) ==> effective_dbm <= DEFAULT_DBM,
        !is_legacy_chip(chip_type) ==> effective_dbm == requested_dbm,
{
    match chip_type {
        ChipType::Sx1276 | ChipType::Sx1277 | ChipType::Sx1278 | ChipType::Sx1279 => {
            if requested_dbm > DEFAULT_DBM {
                DEFAULT_DBM
            } else {
                requested_dbm
            }
        },
        _ => requested_dbm,
    }
}

/// Transmit timeout handed to the chip driver, in milliseconds: generous
/// enough never to cut off a normal transmission, bounded only so a hardware
/// fault cannot hang the call forever.
pub const TX_TIMEOUT_MS: u32 = 0xffffff;

/// Milliseconds to shift the nominal receive-window start earlier, per board:
/// a calibrated constant compensating for the board's command-to-listening
/// latency. Unrecognized boards get the conservative default.
pub open spec fn rx_window_offset_ms(board_type: BoardType) -> i32 {
    match board_type {
        BoardType::Rak4631Sx1262 => -15i32,
        BoardType::Stm32l0Sx1276 => -15i32,
        BoardType::Stm32wlSx1262 => -50i32,
        _ => -50i32,
    }
}

/// Milliseconds the receive window must stay open, per board: a calibrated
/// constant covering the board's clock-drift and latency budget. Unrecognized
/// boards get the conservative default.
pub open spec fn rx_window_duration_ms(board_type: BoardType) -> u32 {
    match board_type {
        BoardType::Rak4631Sx1262 => 1050,
        BoardType::Stm32l0Sx1276 => 1003,
        BoardType::Stm32wlSx1262 => 1050,
        _ => 1050,
    }
}

/// Physical-layer transceiver: exclusively owns one chip driver and sequences
/// it through a transmit or a receive, one operation at a time. It keeps no
/// state across calls beyond the driver handle itself.
pub struct LoRa<RK: RadioKind> {
    radio_kind: RK,
}

impl<RK: RadioKind> LoRa<RK> {
    /// Board the underlying driver was built for; fixed at construction.
    pub closed spec fn board_type(&self) -> BoardType {
        self.radio_kind.board_type()
    }

    /// Take exclusive ownership of a chip driver.
    pub fn new(radio_kind: RK) -> (lora: LoRa<RK>)
        ensures
            lora.board_type() == radio_kind.board_type(),
    {
        LoRa { radio_kind }
    }

    /// Report the board the device was built on.
    pub fn get_board_type(&self) -> (board_type: BoardType)
        ensures
            board_type == self.board_type(),
    {
        self.radio_kind.get_board_type()
    }

    /// Milliseconds to shift the nominal receive-window start earlier for
    /// this board.
    pub fn get_rx_window_offset_ms(&self) -> (offset_ms: i32)
        ensures
            offset_ms == rx_window_offset_ms(self.board_type()),
    {
        match self.radio_kind.get_board_type() {
            BoardType::Rak4631Sx1262 => -15,
            BoardType::Stm32l0Sx1276 => -15,
            BoardType::Stm32wlSx1262 => -50,
            _ => -50,
        }
    }

    /// Milliseconds the receive window must stay open for this board.
    pub fn get_rx_window_duration_ms(&self) -> (duration_ms: u32)
        ensures
            duration_ms == rx_window_duration_ms(self.board_type()),
    {
        match self.radio_kind.get_board_type() {
            BoardType::Rak4631Sx1262 => 1050,
            BoardType::Stm32l0Sx1276 => 1003,
            BoardType::Stm32wlSx1262 => 1050,
            _ => 1050,
        }
    }

    /// Transmit one payload: translate the caller's radio parameters into the
    /// chip's encoding, frame with the fixed transmit framing, clamp the
    /// requested power to the board's legal maximum, arm the chip, and drive
    /// the transmission to completion. Any driver failure aborts the call and
    /// is surfaced verbatim. On success the reported time-on-air is zero:
    /// this layer does not track timing, and the caller may recompute it.
    pub fn tx(&mut self, config: TxConfig, buffer: &[u8]) -> (result: Result<u32, RadioError>)
        ensures
            final(self).board_type() == old(self).board_type(),
            result matches Ok(time_on_air_ms) ==> time_on_air_ms == 0,
    {
        let mdltn_params = match self.radio_kind.create_modulation_params(
            mod_params::SpreadingFactor::from(config.rf.spreading_factor),
            mod_params::Bandwidth::from(config.rf.bandwidth),
            mod_params::CodingRate::from(config.rf.coding_rate),
            config.rf.frequency,
        ) {
            Ok(params) => params,
            Err(err) => {
                return Err(err);
            },
        };
        let mut tx_pkt_params = PacketParams::new_for_tx();
        let chip_type = ChipType::from(self.radio_kind.get_board_type());
        let pw: i8 = effective_output_power(chip_type, config.pw);
        match self.radio_kind.prepare_for_tx(&mdltn_params, pw as i32, false) {
            Ok(_) => {},
            Err(err) => {
                return Err(err);
            },
        }
        match self.radio_kind.tx(&mdltn_params, &mut tx_pkt_params, buffer, TX_TIMEOUT_MS) {
            Ok(_) => Ok(0),
            Err(err) => Err(err),
        }
    }

    /// Receive one packet into the caller's buffer, whose length is the
    /// maximum acceptable payload size: translate the caller's radio
    /// parameters, frame with the fixed receive framing, arm the chip with
    /// the receiver open-ended, and wait for a packet. Any driver failure is
    /// surfaced verbatim. On success the byte count never exceeds the
    /// buffer's length, and the quality carries the driver's signal strength
    /// with the signal-to-noise ratio narrowed to the signed 8-bit range.
    pub fn rx(&mut self, config: RfConfig, receiving_buffer: &mut Vec<u8>) -> (result: Result<
        (usize, RxQuality),
        RadioError,
    >)
        ensures
            final(self).board_type() == old(self).board_type(),
            final(receiving_buffer)@.len() == old(receiving_buffer)@.len(),
            result matches Ok(packet) ==> packet.0 <= old(receiving_buffer)@.len(),
    {
        let mdltn_params = match self.radio_kind.create_modulation_params(
            mod_params::SpreadingFactor::from(config.spreading_factor),
            mod_params::Bandwidth::from(config.bandwidth),
            mod_params::CodingRate::from(config.coding_rate),
            config.frequency,
        ) {
            Ok(params) => params,
            Err(err) => {
                return Err(err);
            },
        };
        let buffer_len: usize = receiving_buffer.len();
        let max_payload_length: u8 = if buffer_len > 255 {
            (buffer_len % 256) as u8
        } else {
            buffer_len as u8
        };
        let rx_pkt_params = PacketParams::new_for_rx(max_payload_length);
        match self.radio_kind.prepare_for_rx(&mdltn_params, &rx_pkt_params, None, None) {
            Ok(_) => {},
            Err(err) => {
                return Err(err);
            },
        }
        match self.radio_kind.rx(&rx_pkt_params, receiving_buffer) {
            Ok((received_len, rx_pkt_status)) => Ok(
                (
                    received_len as usize,
                    RxQuality::new(rx_pkt_status.rssi, narrow_snr(rx_pkt_status.snr)),
                ),
            ),
            Err(err) => Err(err),
        }
    }
}

} // verus!

