use vstd::prelude::*;

use crate::mod_params;
use crate::mod_params::{BoardType, ChipType};
use crate::radio;

verus! {

/// The chip-facing spreading factor that stands for a protocol-facing one.
pub open spec fn spreading_factor_to_chip(sf: radio::SpreadingFactor) -> mod_params::SpreadingFactor {
    match sf {
        radio::SpreadingFactor::_7 => mod_params::SpreadingFactor::_7,
        radio::SpreadingFactor::_8 => mod_params::SpreadingFactor::_8,
        radio::SpreadingFactor::_9 => mod_params::SpreadingFactor::_9,
        radio::SpreadingFactor::_10 => mod_params::SpreadingFactor::_10,
        radio::SpreadingFactor::_11 => mod_params::SpreadingFactor::_11,
        radio::SpreadingFactor::_12 => mod_params::SpreadingFactor::_12,
    }
}

/// The protocol-facing spreading factor that a chip-facing one stands for.
pub open spec fn spreading_factor_of_chip(sf: mod_params::SpreadingFactor) -> radio::SpreadingFactor {
    match sf {
        mod_params::SpreadingFactor::_7 => radio::SpreadingFactor::_7,
        mod_params::SpreadingFactor::_8 => radio::SpreadingFactor::_8,
        mod_params::SpreadingFactor::_9 => radio::SpreadingFactor::_9,
        mod_params::SpreadingFactor::_10 => radio::SpreadingFactor::_10,
        mod_params::SpreadingFactor::_11 => radio::SpreadingFactor::_11,
        mod_params::SpreadingFactor::_12 => radio::SpreadingFactor::_12,
    }
}

/// The chip-facing bandwidth that stands for a protocol-facing one.
pub open spec fn bandwidth_to_chip(bw: radio::Bandwidth) -> mod_params::Bandwidth {
    match bw {
        radio::Bandwidth::_125KHz => mod_params::Bandwidth::_125KHz,
        radio::Bandwidth::_250KHz => mod_params::Bandwidth::_250KHz,
        radio::Bandwidth::_500KHz => mod_params::Bandwidth::_500KHz,
    }
}

/// The protocol-facing bandwidth that a chip-facing one stands for.
pub open spec fn bandwidth_of_chip(bw: mod_params::Bandwidth) -> radio::Bandwidth {
    match bw {
        mod_params::Bandwidth::_125KHz => radio::Bandwidth::_125KHz,
        mod_params::Bandwidth::_250KHz => radio::Bandwidth::_250KHz,
        mod_params::Bandwidth::_500KHz => radio::Bandwidth::_500KHz,
    }
}

/// The chip-facing coding rate that stands for a protocol-facing one.
pub open spec fn coding_rate_to_chip(cr: radio::CodingRate) -> mod_params::CodingRate {
    match cr {
        radio::CodingRate::_4_5 => mod_params::CodingRate::_4_5,
        radio::CodingRate::_4_6 => mod_params::CodingRate::_4_6,
        radio::CodingRate::_4_7 => mod_params::CodingRate::_4_7,
        radio::CodingRate::_4_8 => mod_params::CodingRate::_4_8,
    }
}

/// The protocol-facing coding rate that a chip-facing one stands for.
pub open spec fn coding_rate_of_chip(cr: mod_params::CodingRate) -> radio::CodingRate {
    match cr {
        mod_params::CodingRate::_4_5 => radio::CodingRate::_4_5,
        mod_params::CodingRate::_4_6 => radio::CodingRate::_4_6,
        mod_params::CodingRate::_4_7 => radio::CodingRate::_4_7,
        mod_params::CodingRate::_4_8 => radio::CodingRate::_4_8,
    }
}

/// The silicon variant a board carries.
pub open spec fn chip_type_of_board(board_type: BoardType) -> ChipType {
    match board_type {
        BoardType::GenericSx1261 => ChipType::Sx1261,
        BoardType::Rak4631Sx1262 => ChipType::Sx1262,
        BoardType::Stm32l0Sx1276 => ChipType::Sx1276,
        BoardType::Stm32wlSx1262 => ChipType::Sx1262,
    }
}

/// Convert the spreading factor to the chip driver's encoding.
impl From<radio::SpreadingFactor> for mod_params::SpreadingFactor {
    fn from(sf: radio::SpreadingFactor) -> (chip_sf: mod_params::SpreadingFactor) {
        match sf {
            radio::SpreadingFactor::_7 => mod_params::SpreadingFactor::_7,
            radio::SpreadingFactor::_8 => mod_params::SpreadingFactor::_8,
            radio::SpreadingFactor::_9 => mod_params::SpreadingFactor::_9,
            radio::SpreadingFactor::_10 => mod_params::SpreadingFactor::_10,
            radio::SpreadingFactor::_11 => mod_params::SpreadingFactor::_11,
            radio::SpreadingFactor::_12 => mod_params::SpreadingFactor::_12,
        }
    }
}

impl vstd::std_specs::convert::FromSpecImpl<radio::SpreadingFactor> for mod_params::SpreadingFactor {
    open spec fn obeys_from_spec() -> bool {
        true
    }

    open spec fn from_spec(sf: radio::SpreadingFactor) -> Self {
        spreading_factor_to_chip(sf)
    }
}

/// Convert the bandwidth to the chip driver's encoding.
impl From<radio::Bandwidth> for mod_params::Bandwidth {
    fn from(bw: radio::Bandwidth) -> (chip_bw: mod_params::Bandwidth) {
        match bw {
            radio::Bandwidth::_125KHz => mod_params::Bandwidth::_125KHz,
            radio::Bandwidth::_250KHz => mod_params::Bandwidth::_250KHz,
            radio::Bandwidth::_500KHz => mod_params::Bandwidth::_500KHz,
        }
    }
}

impl vstd::std_specs::convert::FromSpecImpl<radio::Bandwidth> for mod_params::Bandwidth {
    open spec fn obeys_from_spec() -> bool {
        true
    }

    open spec fn from_spec(bw: radio::Bandwidth) -> Self {
        bandwidth_to_chip(bw)
    }
}

/// Convert the coding rate to the chip driver's encoding.
impl From<radio::CodingRate> for mod_params::CodingRate {
    fn from(cr: radio::CodingRate) -> (chip_cr: mod_params::CodingRate) {
        match cr {
            radio::CodingRate::_4_5 => mod_params::CodingRate::_4_5,
            radio::CodingRate::_4_6 => mod_params::CodingRate::_4_6,
            radio::CodingRate::_4_7 => mod_params::CodingRate::_4_7,
            radio::CodingRate::_4_8 => mod_params::CodingRate::_4_8,
        }
    }
}

impl vstd::std_specs::convert::FromSpecImpl<radio::CodingRate> for mod_params::CodingRate {
    open spec fn obeys_from_spec() -> bool {
        true
    }

    open spec fn from_spec(cr: radio::CodingRate) -> Self {
        coding_rate_to_chip(cr)
    }
}

/// Derive the silicon variant from the board identity: a one-way mapping,
/// fixed for the life of the device.
impl From<BoardType> for ChipType {
    fn from(board_type: BoardType) -> (chip_type: ChipType) {
        match board_type {
            BoardType::GenericSx1261 => ChipType::Sx1261,
            BoardType::Rak4631Sx1262 => ChipType::Sx1262,
            BoardType::Stm32l0Sx1276 => ChipType::Sx1276,
            BoardType::Stm32wlSx1262 => ChipType::Sx1262,
        }
    }
}

impl vstd::std_specs::convert::FromSpecImpl<BoardType> for ChipType {
    open spec fn obeys_from_spec() -> bool {
        true
    }

    open spec fn from_spec(board_type: BoardType) -> Self {
        chip_type_of_board(board_type)
    }
}

/// Law: the spreading-factor translation is a total bijection. Every
/// protocol-facing value has exactly one chip-facing counterpart, no two
/// distinct protocol-facing values share one, and every chip-facing value is
/// reached.
pub proof fn lemma_spreading_factor_translation_bijective(
    a: radio::SpreadingFactor,
    b: radio::SpreadingFactor,
    chip: mod_params::SpreadingFactor,
)
    ensures
        spreading_factor_of_chip(spreading_factor_to_chip(a)) == a,
        spreading_factor_to_chip(spreading_factor_of_chip(chip)) == chip,
        spreading_factor_to_chip(a) == spreading_factor_to_chip(b) ==> a == b,
{
}

/// Law: the bandwidth translation is a total bijection.
pub proof fn lemma_bandwidth_translation_bijective(
    a: radio::Bandwidth,
    b: radio::Bandwidth,
    chip: mod_params::Bandwidth,
)
    ensures
        bandwidth_of_chip(bandwidth_to_chip(a)) == a,
        bandwidth_to_chip(bandwidth_of_chip(chip)) == chip,
        bandwidth_to_chip(a) == bandwidth_to_chip(b) ==> a == b,
{
}

/// Law: the coding-rate translation is a total bijection.
pub proof fn lemma_coding_rate_translation_bijective(
    a: radio::CodingRate,
    b: radio::CodingRate,
    chip: mod_params::CodingRate,
)
    ensures
        coding_rate_of_chip(coding_rate_to_chip(a)) == a,
        coding_rate_to_chip(coding_rate_of_chip(chip)) == chip,
        coding_rate_to_chip(a) == coding_rate_to_chip(b) ==> a == b,
{
}

} // verus!
