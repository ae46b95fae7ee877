//! The fixed 64-colour NES system palette.

use vstd::prelude::*;

verus! {

/// RGB triple for a 6-bit system-palette index; the index is folded to six
/// bits the way the hardware decodes it.
pub open spec fn spec_system_palette(idx: u8) -> (u8, u8, u8) {
    match idx & 0x3f {
        0x00 => (0x80u8, 0x80u8, 0x80u8),
        0x01 => (0x00u8, 0x3Du8, 0xA6u8),
        0x02 => (0x00u8, 0x12u8, 0xB0u8),
        0x03 => (0x44u8, 0x00u8, 0x96u8),
        0x04 => (0xA1u8, 0x00u8, 0x5Eu8),
        0x05 => (0xC7u8, 0x00u8, 0x28u8),
        0x06 => (0xBAu8, 0x06u8, 0x00u8),
        0x07 => (0x8Cu8, 0x17u8, 0x00u8),
        0x08 => (0x5Cu8, 0x2Fu8, 0x00u8),
        0x09 => (0x10u8, 0x45u8, 0x00u8),
        0x0a => (0x05u8, 0x4Au8, 0x00u8),
        0x0b => (0x00u8, 0x47u8, 0x2Eu8),
        0x0c => (0x00u8, 0x41u8, 0x66u8),
        0x0d => (0x00u8, 0x00u8, 0x00u8),
        0x0e => (0x05u8, 0x05u8, 0x05u8),
        0x0f => (0x05u8, 0x05u8, 0x05u8),
        0x10 => (0xC7u8, 0xC7u8, 0xC7u8),
        0x11 => (0x00u8, 0x77u8, 0xFFu8),
        0x12 => (0x21u8, 0x55u8, 0xFFu8),
        0x13 => (0x82u8, 0x37u8, 0xFAu8),
        0x14 => (0xEBu8, 0x2Fu8, 0xB5u8),
        0x15 => (0xFFu8, 0x29u8, 0x50u8),
        0x16 => (0xFFu8, 0x22u8, 0x00u8),
        0x17 => (0xD6u8, 0x32u8, 0x00u8),
        0x18 => (0xC4u8, 0x62u8, 0x00u8),
        0x19 => (0x35u8, 0x80u8, 0x00u8),
        0x1a => (0x05u8, 0x8Fu8, 0x00u8),
        0x1b => (0x00u8, 0x8Au8, 0x55u8),
        0x1c => (0x00u8, 0x99u8, 0xCCu8),
        0x1d => (0x21u8, 0x21u8, 0x21u8),
        0x1e => (0x09u8, 0x09u8, 0x09u8),
        0x1f => (0x09u8, 0x09u8, 0x09u8),
        0x20 => (0xFFu8, 0xFFu8, 0xFFu8),
        0x21 => (0x0Fu8, 0xD7u8, 0xFFu8),
        0x22 => (0x69u8, 0xA2u8, 0xFFu8),
        0x23 => (0xD4u8, 0x80u8, 0xFFu8),
        0x24 => (0xFFu8, 0x45u8, 0xF3u8),
        0x25 => (0xFFu8, 0x61u8, 0x8Bu8),
        0x26 => (0xFFu8, 0x88u8, 0x33u8),
        0x27 => (0xFFu8, 0x9Cu8, 0x12u8),
        0x28 => (0xFAu8, 0xBCu8, 0x20u8),
        0x29 => (0x9Fu8, 0xE3u8, 0x0Eu8),
        0x2a => (0x2Bu8, 0xF0u8, 0x35u8),
        0x2b => (0x0Cu8, 0xF0u8, 0xA4u8),
        0x2c => (0x05u8, 0xFBu8, 0xFFu8),
        0x2d => (0x5Eu8, 0x5Eu8, 0x5Eu8),
        0x2e => (0x0Du8, 0x0Du8, 0x0Du8),
        0x2f => (0x0Du8, 0x0Du8, 0x0Du8),
        0x30 => (0xFFu8, 0xFFu8, 0xFFu8),
        0x31 => (0xA6u8, 0xFCu8, 0xFFu8),
        0x32 => (0xB3u8, 0xECu8, 0xFFu8),
        0x33 => (0xDAu8, 0xABu8, 0xEBu8),
        0x34 => (0xFFu8, 0xA8u8, 0xF9u8),
        0x35 => (0xFFu8, 0xABu8, 0xB3u8),
        0x36 => (0xFFu8, 0xD2u8, 0xB0u8),
        0x37 => (0xFFu8, 0xEFu8, 0xA6u8),
        0x38 => (0xFFu8, 0xF7u8, 0x9Cu8),
        0x39 => (0xD7u8, 0xE8u8, 0x95u8),
        0x3a => (0xA6u8, 0xEDu8, 0xAFu8),
        0x3b => (0xA2u8, 0xF2u8, 0xDAu8),
        0x3c => (0x99u8, 0xFFu8, 0xFCu8),
        0x3d => (0xDDu8, 0xDDu8, 0xDDu8),
        0x3e => (0x11u8, 0x11u8, 0x11u8),
        _ => (0x11u8, 0x11u8, 0x11u8),
    }
}

/// Executable form of `spec_system_palette`.
pub fn system_palette(idx: u8) -> (rgb: (u8, u8, u8))
    ensures
        rgb == spec_system_palette(idx),
{
    match idx & 0x3f {
        0x00 => (0x80, 0x80, 0x80),
        0x01 => (0x00, 0x3D, 0xA6),
        0x02 => (0x00, 0x12, 0xB0),
        0x03 => (0x44, 0x00, 0x96),
        0x04 => (0xA1, 0x00, 0x5E),
        0x05 => (0xC7, 0x00, 0x28),
        0x06 => (0xBA, 0x06, 0x00),
        0x07 => (0x8C, 0x17, 0x00),
        0x08 => (0x5C, 0x2F, 0x00),
        0x09 => (0x10, 0x45, 0x00),
        0x0a => (0x05, 0x4A, 0x00),
        0x0b => (0x00, 0x47, 0x2E),
        0x0c => (0x00, 0x41, 0x66),
        0x0d => (0x00, 0x00, 0x00),
        0x0e => (0x05, 0x05, 0x05),
        0x0f => (0x05, 0x05, 0x05),
        0x10 => (0xC7, 0xC7, 0xC7),
        0x11 => (0x00, 0x77, 0xFF),
        0x12 => (0x21, 0x55, 0xFF),
        0x13 => (0x82, 0x37, 0xFA),
        0x14 => (0xEB, 0x2F, 0xB5),
        0x15 => (0xFF, 0x29, 0x50),
        0x16 => (0xFF, 0x22, 0x00),
        0x17 => (0xD6, 0x32, 0x00),
        0x18 => (0xC4, 0x62, 0x00),
        0x19 => (0x35, 0x80, 0x00),
        0x1a => (0x05, 0x8F, 0x00),
        0x1b => (0x00, 0x8A, 0x55),
        0x1c => (0x00, 0x99, 0xCC),
        0x1d => (0x21, 0x21, 0x21),
        0x1e => (0x09, 0x09, 0x09),
        0x1f => (0x09, 0x09, 0x09),
        0x20 => (0xFF, 0xFF, 0xFF),
        0x21 => (0x0F, 0xD7, 0xFF),
        0x22 => (0x69, 0xA2, 0xFF),
        0x23 => (0xD4, 0x80, 0xFF),
        0x24 => (0xFF, 0x45, 0xF3),
        0x25 => (0xFF, 0x61, 0x8B),
        0x26 => (0xFF, 0x88, 0x33),
        0x27 => (0xFF, 0x9C, 0x12),
        0x28 => (0xFA, 0xBC, 0x20),
        0x29 => (0x9F, 0xE3, 0x0E),
        0x2a => (0x2B, 0xF0, 0x35),
        0x2b => (0x0C, 0xF0, 0xA4),
        0x2c => (0x05, 0xFB, 0xFF),
        0x2d => (0x5E, 0x5E, 0x5E),
        0x2e => (0x0D, 0x0D, 0x0D),
        0x2f => (0x0D, 0x0D, 0x0D),
        0x30 => (0xFF, 0xFF, 0xFF),
        0x31 => (0xA6, 0xFC, 0xFF),
        0x32 => (0xB3, 0xEC, 0xFF),
        0x33 => (0xDA, 0xAB, 0xEB),
        0x34 => (0xFF, 0xA8, 0xF9),
        0x35 => (0xFF, 0xAB, 0xB3),
        0x36 => (0xFF, 0xD2, 0xB0),
        0x37 => (0xFF, 0xEF, 0xA6),
        0x38 => (0xFF, 0xF7, 0x9C),
        0x39 => (0xD7, 0xE8, 0x95),
        0x3a => (0xA6, 0xED, 0xAF),
        0x3b => (0xA2, 0xF2, 0xDA),
        0x3c => (0x99, 0xFF, 0xFC),
        0x3d => (0xDD, 0xDD, 0xDD),
        0x3e => (0x11, 0x11, 0x11),
        _ => (0x11, 0x11, 0x11),
    }
}

} // verus!
