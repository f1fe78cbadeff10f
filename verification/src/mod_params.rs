use vstd::prelude::*;

verus! {

/// Spreading factor as the chip driver encodes it.
#[derive(Clone, Copy, Debug, PartialEq, Eq, Structural)]
pub enum SpreadingFactor {
    _7,
    _8,
    _9,
    _10,
    _11,
    _12,
}

/// Channel bandwidth as the chip driver encodes it.
#[derive(Clone, Copy, Debug, PartialEq, Eq, Structural)]
pub enum Bandwidth {
    _125KHz,
    _250KHz,
    _500KHz,
}

/// Forward-error-correction coding rate as the chip driver encodes it.
#[derive(Clone, Copy, Debug, PartialEq, Eq, Structural)]
pub enum CodingRate {
    _4_5,
    _4_6,
    _4_7,
    _4_8,
}

/// Physical board a device was built on: three calibrated boards, and a
/// generic fallback for anything else.
#[derive(Clone, Copy, Debug, PartialEq, Eq, Structural)]
pub enum BoardType {
    GenericSx1261,
    Rak4631Sx1262,
    Stm32l0Sx1276,
    Stm32wlSx1262,
}

/// Silicon variant driven by a board. The four Sx127x variants form the
/// legacy family with the lower transmit-power ceiling.
#[derive(Clone, Copy, Debug, PartialEq, Eq, Structural)]
pub enum ChipType {
    Sx1261,
    Sx1262,
    Sx1276,
    Sx1277,
    Sx1278,
    Sx1279,
}

/// Modulation configuration handed to the chip for one operation.
#[derive(Clone, Copy, Debug, PartialEq, Eq, Structural)]
pub struct ModulationParams {
    pub spreading_factor: SpreadingFactor,
    pub bandwidth: Bandwidth,
    pub coding_rate: CodingRate,
    pub frequency_in_hz: u32,
}

/// Packet-framing configuration handed to the chip for one operation.
#[derive(Clone, Copy, Debug, PartialEq, Eq, Structural)]
pub struct PacketParams {
    pub preamble_length: u16,
    pub implicit_header: bool,
    pub payload_length: u8,
    pub crc_on: bool,
    pub iq_inverted: bool,
}

impl PacketParams {
    /// Framing for a transmit operation: a preamble of 8 symbols, an explicit
    /// header, CRC enabled, and standard (non-inverted) IQ. The payload length
    /// starts at zero; the chip driver records the actual length when the
    /// transmit is issued.
    pub fn new_for_tx() -> (params: PacketParams)
        ensures
            params.preamble_length == 8,
            !params.implicit_header,
            params.payload_length == 0,
            params.crc_on,
            !params.iq_inverted,
    {
        PacketParams {
            preamble_length: 8,
            implicit_header: false,
            payload_length: 0,
            crc_on: true,
            iq_inverted: false,
        }
    }

    /// Framing for a receive operation: a preamble of 8 symbols, an explicit
    /// header, CRC enabled, inverted IQ (receive is deliberately asymmetric
    /// with transmit), and the given maximum payload length.
    pub fn new_for_rx(max_payload_length: u8) -> (params: PacketParams)
        ensures
            params.preamble_length == 8,
            !params.implicit_header,
            params.payload_length == max_payload_length,
            params.crc_on,
            params.iq_inverted,
    {
        PacketParams {
            preamble_length: 8,
            implicit_header: false,
            payload_length: max_payload_length,
            crc_on: true,
            iq_inverted: true,
        }
    }
}

/// Signal quality the chip reports for a received packet. The signal-to-noise
/// ratio is in the chip's native signed 16-bit range.
#[derive(Clone, Copy, Debug, PartialEq, Eq, Structural)]
pub struct PacketStatus {
    pub rssi: i16,
    pub snr: i16,
}

/// Failure surfaced by the chip driver. This layer never interprets or
/// recovers from one: every variant is passed through to the caller verbatim.
#[derive(Clone, Copy, Debug, PartialEq, Eq, Structural)]
pub enum RadioError {
    Busy,
    Irq,
    UnavailableSpreadingFactor,
    UnavailableBandwidth,
    UnavailableCodingRate,
    InvalidOutputPower,
    HeaderError,
    CrcErrorOnRx,
    TransmitTimeout,
    ReceiveTimeout,
}

} // verus!
