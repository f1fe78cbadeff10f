use vstd::prelude::*;

verus! {

/// Spreading factor as the protocol stack names it.
#[derive(Clone, Copy, Debug, PartialEq, Eq, Structural)]
pub enum SpreadingFactor {
    _7,
    _8,
    _9,
    _10,
    _11,
    _12,
}

/// Channel bandwidth as the protocol stack names it.
#[derive(Clone, Copy, Debug, PartialEq, Eq, Structural)]
pub enum Bandwidth {
    _125KHz,
    _250KHz,
    _500KHz,
}

/// Forward-error-correction coding rate as the protocol stack names it.
#[derive(Clone, Copy, Debug, PartialEq, Eq, Structural)]
pub enum CodingRate {
    _4_5,
    _4_6,
    _4_7,
    _4_8,
}

/// Radio configuration shared by transmit and receive, built by the caller
/// for each operation.
#[derive(Clone, Copy, Debug, PartialEq, Eq, Structural)]
pub struct RfConfig {
    pub frequency: u32,
    pub bandwidth: Bandwidth,
    pub spreading_factor: SpreadingFactor,
    pub coding_rate: CodingRate,
}

/// Transmit configuration: the shared radio configuration plus the requested
/// transmit power in dBm.
#[derive(Clone, Copy, Debug, PartialEq, Eq, Structural)]
pub struct TxConfig {
    pub pw: i8,
    pub rf: RfConfig,
}

/// Quality of a received packet as reported to the caller: signal strength in
/// dBm, and the signal-to-noise ratio narrowed to the signed 8-bit range.
#[derive(Clone, Copy, Debug, PartialEq, Eq, Structural)]
pub struct RxQuality {
    pub rssi: i16,
    pub snr: i8,
}

impl RxQuality {
    pub fn new(rssi: i16, snr: i8) -> (quality: RxQuality)
        ensures
            quality.rssi == rssi,
            quality.snr == snr,
    {
        RxQuality { rssi, snr }
    }

    pub fn rssi(&self) -> (rssi: i16)
        ensures
            rssi == self.rssi,
    {
        self.rssi
    }

    pub fn snr(&self) -> (snr: i8)
        ensures
            snr == self.snr,
    {
        self.snr
    }
}

/// Mathematical value of a signed 16-bit quantity truncated to the signed
/// 8-bit range: the low byte, read as two's complement. A value already in
/// the signed 8-bit range is its own truncation.
pub open spec fn snr_narrowed(snr: i16) -> int {
    let low = (snr as int) % 256;
    if low >= 128 {
        low - 256
    } else {
        low
    }
}

/// Narrow a chip-native signal-to-noise ratio to the signed 8-bit range the
/// caller expects. Values within the range round-trip exactly; values outside
/// it are truncated to their low byte, read as two's complement.
pub fn narrow_snr(snr: i16) -> (narrowed: i8)
    ensures
        narrowed as int == snr_narrowed(snr),
        -128 <= snr <= 127 ==> narrowed as int == snr as int,
{
    proof {
        vstd::arithmetic::div_mod::lemma_mod_multiples_vanish(128, snr as int, 256);
    }
    let shifted: i32 = (snr as i32) + 32768;
    let low: i32 = shifted % 256;
    if low >= 128 {
        (low - 256) as i8
    } else {
        low as i8
    }
}

} // verus!
