//! The CPUID family/model/stepping signature packing.
//!
//! AMD's CPUID specification (publication #25481, "CPUID Fn0000_0001_EAX
//! Family, Model, Stepping Identifiers") lays the three architectural fields
//! out in one 32-bit word: an extended family byte at bits 20..27, the high
//! model nibble at bits 16..19, the base family at bits 8..11, the low model
//! nibble at bits 4..7 and the stepping at bits 0..3.

use vstd::prelude::*;

verus! {

/// The packed CPUID signature of an architectural triple, as a spec-level
/// value.
///
/// Families above 0xF overflow the base family field: the base field is
/// pinned to 0xF and the remainder, masked to a byte, goes to the extended
/// family field. Out-of-range `model` and `stepping` inputs are masked, never
/// rejected; negative inputs keep their two's-complement bits, so the
/// function is total over all integer inputs.
pub open spec fn cpu_sig_spec(family: i32, model: i32, stepping: i32) -> u32 {
    let family_low: i32 = if family > 0xf {
        0xf
    } else {
        family
    };
    let family_high: i32 = if family > 0xf {
        ((family - 0xf) as i32) & 0xff
    } else {
        0
    };
    let model_low: i32 = model & 0xf;
    let model_high: i32 = (model >> 4) & 0xf;
    let stepping_low: i32 = stepping & 0xf;
    ((family_high << 20) | (model_high << 16) | (family_low << 8) | (model_low << 4)
        | stepping_low) as u32
}

/// Compute the 32-bit CPUID signature from family, model, and stepping.
///
/// Total over all integer inputs: values outside the architectural ranges
/// are masked, not rejected.
pub fn cpu_sig(family: i32, model: i32, stepping: i32) -> (r: u32)
    ensures
        r == cpu_sig_spec(family, model, stepping),
{
    let family_low: i32;
    let family_high: i32;

    if family > 0xf {
        family_low = 0xf;
        family_high = (family - 0xf) & 0xff;
    } else {
        family_low = family;
        family_high = 0;
    }

    let model_low: i32 = model & 0xf;
    let model_high: i32 = (model >> 4) & 0xf;

    let stepping_low: i32 = stepping & 0xf;

    let packed: i32 = (family_high << 20) | (model_high << 16) | (family_low << 8) | (model_low
        << 4) | stepping_low;
    #[verifier::truncate] (packed as u32)
}

/// The packed signatures of the three triples the catalog binds, worked out
/// to their exact 32-bit values.
pub proof fn lemma_cpu_sig_values()
    ensures
        cpu_sig_spec(23, 1, 2) == 0x00800F12u32,
        cpu_sig_spec(23, 49, 0) == 0x00830F10u32,
        cpu_sig_spec(25, 1, 1) == 0x00A00F11u32,
{
    assert(8i32 & 0xff == 8) by (bit_vector);
    assert(10i32 & 0xff == 10) by (bit_vector);
    assert(1i32 & 0xf == 1) by (bit_vector);
    assert(49i32 & 0xf == 1) by (bit_vector);
    assert((1i32 >> 4) & 0xf == 0) by (bit_vector);
    assert((49i32 >> 4) & 0xf == 3) by (bit_vector);
    assert(0i32 & 0xf == 0) by (bit_vector);
    assert(2i32 & 0xf == 2) by (bit_vector);
    assert((8i32 << 20) | (0i32 << 16) | (0xfi32 << 8) | (1i32 << 4) | 2i32 == 0x00800F12)
        by (bit_vector);
    assert((8i32 << 20) | (3i32 << 16) | (0xfi32 << 8) | (1i32 << 4) | 0i32 == 0x00830F10)
        by (bit_vector);
    assert((10i32 << 20) | (0i32 << 16) | (0xfi32 << 8) | (1i32 << 4) | 1i32 == 0x00A00F11)
        by (bit_vector);
}

} // verus!
