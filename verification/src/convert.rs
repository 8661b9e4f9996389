//! Conversion of raw analog-converter codes to millivolts.

use vstd::prelude::*;

verus! {

/// Largest code the 12-bit analog converter can return.
pub const MAX_RAW_CODE: u16 = 4095;

/// Reference voltage in millivolts: 3.1 V at the 11 dB input attenuation
/// the converter is configured with.
pub const V_REF_MILLIVOLTS: u16 = 3100;

/// The millivolt value of a raw converter code: the code scaled by the
/// reference voltage over the full-scale code, truncated to whole
/// millivolts.
pub open spec fn millivolts_of_raw(raw: int) -> int {
    (raw * V_REF_MILLIVOLTS) / (MAX_RAW_CODE as int)
}

/// Converts one raw converter code to whole millivolts.
pub fn raw_to_millivolts(raw: u16) -> (mv: u16)
    requires
        raw <= MAX_RAW_CODE,
    ensures
        mv == millivolts_of_raw(raw as int),
        mv <= V_REF_MILLIVOLTS,
{
    proof {
        assert(raw * V_REF_MILLIVOLTS <= MAX_RAW_CODE * V_REF_MILLIVOLTS) by (nonlinear_arith)
            requires
                raw <= MAX_RAW_CODE,
        ;
        assert((raw * V_REF_MILLIVOLTS) / (MAX_RAW_CODE as int) <= V_REF_MILLIVOLTS) by (nonlinear_arith)
            requires
                raw * V_REF_MILLIVOLTS <= MAX_RAW_CODE * V_REF_MILLIVOLTS,
        ;
    }
    let scaled: u32 = (raw as u32) * (V_REF_MILLIVOLTS as u32);
    (scaled / (MAX_RAW_CODE as u32)) as u16
}

} // verus!
