//! The 6502 opcode table: instruction length in bytes, base cycle count and
//! addressing mode for every one of the 256 opcodes, official and unofficial,
//! with the nestest-style mnemonic (unofficial ones carry a `*` prefix).

use vstd::prelude::*;

verus! {

/// Instruction addressing mode.
#[derive(Debug, PartialEq, Eq, Clone, Copy, Structural)]
#[allow(non_camel_case_types)]
pub enum AddressingMode {
    Immediate,
    ZeroPage,
    ZeroPage_X,
    ZeroPage_Y,
    Absolute,
    Absolute_X,
    Absolute_Y,
    Indirect_X,
    Indirect_Y,
    NoneAddressing,
}

/// One table row.
#[derive(Debug, PartialEq, Eq, Clone, Copy, Structural)]
pub struct OpCode {
    pub len: u16,
    pub cycles: u8,
    pub mode: AddressingMode,
}

/// The table itself.
#[verifier::opaque]
pub open spec fn spec_opcode(code: u8) -> OpCode {
    match code {
        0x00 => OpCode { len: 1, cycles: 7, mode: AddressingMode::NoneAddressing },
        0x01 => OpCode { len: 2, cycles: 6, mode: AddressingMode::Indirect_X },
        0x02 => OpCode { len: 1, cycles: 2, mode: AddressingMode::NoneAddressing },
        0x03 => OpCode { len: 2, cycles: 8, mode: AddressingMode::Indirect_X },
        0x04 => OpCode { len: 2, cycles: 3, mode: AddressingMode::ZeroPage },
        0x05 => OpCode { len: 2, cycles: 3, mode: AddressingMode::ZeroPage },
        0x06 => OpCode { len: 2, cycles: 5, mode: AddressingMode::ZeroPage },
        0x07 => OpCode { len: 2, cycles: 5, mode: AddressingMode::ZeroPage },
        0x08 => OpCode { len: 1, cycles: 3, mode: AddressingMode::NoneAddressing },
        0x09 => OpCode { len: 2, cycles: 2, mode: AddressingMode::Immediate },
        0x0a => OpCode { len: 1, cycles: 2, mode: AddressingMode::NoneAddressing },
        0x0b => OpCode { len: 2, cycles: 2, mode: AddressingMode::Immediate },
        0x0c => OpCode { len: 3, cycles: 4, mode: AddressingMode::Absolute },
        0x0d => OpCode { len: 3, cycles: 4, mode: AddressingMode::Absolute },
        0x0e => OpCode { len: 3, cycles: 6, mode: AddressingMode::Absolute },
        0x0f => OpCode { len: 3, cycles: 6, mode: AddressingMode::Absolute },
        0x10 => OpCode { len: 2, cycles: 2, mode: AddressingMode::NoneAddressing },
        0x11 => OpCode { len: 2, cycles: 5, mode: AddressingMode::Indirect_Y },
        0x12 => OpCode { len: 1, cycles: 2, mode: AddressingMode::NoneAddressing },
        0x13 => OpCode { len: 2, cycles: 8, mode: AddressingMode::Indirect_Y },
        0x14 => OpCode { len: 2, cycles: 4, mode: AddressingMode::ZeroPage_X },
        0x15 => OpCode { len: 2, cycles: 4, mode: AddressingMode::ZeroPage_X },
        0x16 => OpCode { len: 2, cycles: 6, mode: AddressingMode::ZeroPage_X },
        0x17 => OpCode { len: 2, cycles: 6, mode: AddressingMode::ZeroPage_X },
        0x18 => OpCode { len: 1, cycles: 2, mode: AddressingMode::NoneAddressing },
        0x19 => OpCode { len: 3, cycles: 4, mode: AddressingMode::Absolute_Y },
        0x1a => OpCode { len: 1, cycles: 2, mode: AddressingMode::NoneAddressing },
        0x1b => OpCode { len: 3, cycles: 7, mode: AddressingMode::Absolute_Y },
        0x1c => OpCode { len: 3, cycles: 4, mode: AddressingMode::Absolute_X },
        0x1d => OpCode { len: 3, cycles: 4, mode: AddressingMode::Absolute_X },
        0x1e => OpCode { len: 3, cycles: 7, mode: AddressingMode::Absolute_X },
        0x1f => OpCode { len: 3, cycles: 7, mode: AddressingMode::Absolute_X },
        0x20 => OpCode { len: 3, cycles: 6, mode: AddressingMode::NoneAddressing },
        0x21 => OpCode { len: 2, cycles: 6, mode: AddressingMode::Indirect_X },
        0x22 => OpCode { len: 1, cycles: 2, mode: AddressingMode::NoneAddressing },
        0x23 => OpCode { len: 2, cycles: 8, mode: AddressingMode::Indirect_X },
        0x24 => OpCode { len: 2, cycles: 3, mode: AddressingMode::ZeroPage },
        0x25 => OpCode { len: 2, cycles: 3, mode: AddressingMode::ZeroPage },
        0x26 => OpCode { len: 2, cycles: 5, mode: AddressingMode::ZeroPage },
        0x27 => OpCode { len: 2, cycles: 5, mode: AddressingMode::ZeroPage },
        0x28 => OpCode { len: 1, cycles: 4, mode: AddressingMode::NoneAddressing },
        0x29 => OpCode { len: 2, cycles: 2, mode: AddressingMode::Immediate },
        0x2a => OpCode { len: 1, cycles: 2, mode: AddressingMode::NoneAddressing },
        0x2b => OpCode { len: 2, cycles: 2, mode: AddressingMode::Immediate },
        0x2c => OpCode { len: 3, cycles: 4, mode: AddressingMode::Absolute },
        0x2d => OpCode { len: 3, cycles: 4, mode: AddressingMode::Absolute },
        0x2e => OpCode { len: 3, cycles: 6, mode: AddressingMode::Absolute },
        0x2f => OpCode { len: 3, cycles: 6, mode: AddressingMode::Absolute },
        0x30 => OpCode { len: 2, cycles: 2, mode: AddressingMode::NoneAddressing },
        0x31 => OpCode { len: 2, cycles: 5, mode: AddressingMode::Indirect_Y },
        0x32 => OpCode { len: 1, cycles: 2, mode: AddressingMode::NoneAddressing },
        0x33 => OpCode { len: 2, cycles: 8, mode: AddressingMode::Indirect_Y },
        0x34 => OpCode { len: 2, cycles: 4, mode: AddressingMode::ZeroPage_X },
        0x35 => OpCode { len: 2, cycles: 4, mode: AddressingMode::ZeroPage_X },
        0x36 => OpCode { len: 2, cycles: 6, mode: AddressingMode::ZeroPage_X },
        0x37 => OpCode { len: 2, cycles: 6, mode: AddressingMode::ZeroPage_X },
        0x38 => OpCode { len: 1, cycles: 2, mode: AddressingMode::NoneAddressing },
        0x39 => OpCode { len: 3, cycles: 4, mode: AddressingMode::Absolute_Y },
        0x3a => OpCode { len: 1, cycles: 2, mode: AddressingMode::NoneAddressing },
        0x3b => OpCode { len: 3, cycles: 7, mode: AddressingMode::Absolute_Y },
        0x3c => OpCode { len: 3, cycles: 4, mode: AddressingMode::Absolute_X },
        0x3d => OpCode { len: 3, cycles: 4, mode: AddressingMode::Absolute_X },
        0x3e => OpCode { len: 3, cycles: 7, mode: AddressingMode::Absolute_X },
        0x3f => OpCode { len: 3, cycles: 7, mode: AddressingMode::Absolute_X },
        0x40 => OpCode { len: 1, cycles: 6, mode: AddressingMode::NoneAddressing },
        0x41 => OpCode { len: 2, cycles: 6, mode: AddressingMode::Indirect_X },
        0x42 => OpCode { len: 1, cycles: 2, mode: AddressingMode::NoneAddressing },
        0x43 => OpCode { len: 2, cycles: 8, mode: AddressingMode::Indirect_X },
        0x44 => OpCode { len: 2, cycles: 3, mode: AddressingMode::ZeroPage },
        0x45 => OpCode { len: 2, cycles: 3, mode: AddressingMode::ZeroPage },
        0x46 => OpCode { len: 2, cycles: 5, mode: AddressingMode::ZeroPage },
        0x47 => OpCode { len: 2, cycles: 5, mode: AddressingMode::ZeroPage },
        0x48 => OpCode { len: 1, cycles: 3, mode: AddressingMode::NoneAddressing },
        0x49 => OpCode { len: 2, cycles: 2, mode: AddressingMode::Immediate },
        0x4a => OpCode { len: 1, cycles: 2, mode: AddressingMode::NoneAddressing },
        0x4b => OpCode { len: 2, cycles: 2, mode: AddressingMode::Immediate },
        0x4c => OpCode { len: 3, cycles: 3, mode: AddressingMode::NoneAddressing },
        0x4d => OpCode { len: 3, cycles: 4, mode: AddressingMode::Absolute },
        0x4e => OpCode { len: 3, cycles: 6, mode: AddressingMode::Absolute },
        0x4f => OpCode { len: 3, cycles: 6, mode: AddressingMode::Absolute },
        0x50 => OpCode { len: 2, cycles: 2, mode: AddressingMode::NoneAddressing },
        0x51 => OpCode { len: 2, cycles: 5, mode: AddressingMode::Indirect_Y },
        0x52 => OpCode { len: 1, cycles: 2, mode: AddressingMode::NoneAddressing },
        0x53 => OpCode { len: 2, cycles: 8, mode: AddressingMode::Indirect_Y },
        0x54 => OpCode { len: 2, cycles: 4, mode: AddressingMode::ZeroPage_X },
        0x55 => OpCode { len: 2, cycles: 4, mode: AddressingMode::ZeroPage_X },
        0x56 => OpCode { len: 2, cycles: 6, mode: AddressingMode::ZeroPage_X },
        0x57 => OpCode { len: 2, cycles: 6, mode: AddressingMode::ZeroPage_X },
        0x58 => OpCode { len: 1, cycles: 2, mode: AddressingMode::NoneAddressing },
        0x59 => OpCode { len: 3, cycles: 4, mode: AddressingMode::Absolute_Y },
        0x5a => OpCode { len: 1, cycles: 2, mode: AddressingMode::NoneAddressing },
        0x5b => OpCode { len: 3, cycles: 7, mode: AddressingMode::Absolute_Y },
        0x5c => OpCode { len: 3, cycles: 4, mode: AddressingMode::Absolute_X },
        0x5d => OpCode { len: 3, cycles: 4, mode: AddressingMode::Absolute_X },
        0x5e => OpCode { len: 3, cycles: 7, mode: AddressingMode::Absolute_X },
        0x5f => OpCode { len: 3, cycles: 7, mode: AddressingMode::Absolute_X },
        0x60 => OpCode { len: 1, cycles: 6, mode: AddressingMode::NoneAddressing },
        0x61 => OpCode { len: 2, cycles: 6, mode: AddressingMode::Indirect_X },
        0x62 => OpCode { len: 1, cycles: 2, mode: AddressingMode::NoneAddressing },
        0x63 => OpCode { len: 2, cycles: 8, mode: AddressingMode::Indirect_X },
        0x64 => OpCode { len: 2, cycles: 3, mode: AddressingMode::ZeroPage },
        0x65 => OpCode { len: 2, cycles: 3, mode: AddressingMode::ZeroPage },
        0x66 => OpCode { len: 2, cycles: 5, mode: AddressingMode::ZeroPage },
        0x67 => OpCode { len: 2, cycles: 5, mode: AddressingMode::ZeroPage },
        0x68 => OpCode { len: 1, cycles: 4, mode: AddressingMode::NoneAddressing },
        0x69 => OpCode { len: 2, cycles: 2, mode: AddressingMode::Immediate },
        0x6a => OpCode { len: 1, cycles: 2, mode: AddressingMode::NoneAddressing },
        0x6b => OpCode { len: 2, cycles: 2, mode: AddressingMode::Immediate },
        0x6c => OpCode { len: 3, cycles: 5, mode: AddressingMode::NoneAddressing },
        0x6d => OpCode { len: 3, cycles: 4, mode: AddressingMode::Absolute },
        0x6e => OpCode { len: 3, cycles: 6, mode: AddressingMode::Absolute },
        0x6f => OpCode { len: 3, cycles: 6, mode: AddressingMode::Absolute },
        0x70 => OpCode { len: 2, cycles: 2, mode: AddressingMode::NoneAddressing },
        0x71 => OpCode { len: 2, cycles: 5, mode: AddressingMode::Indirect_Y },
        0x72 => OpCode { len: 1, cycles: 2, mode: AddressingMode::NoneAddressing },
        0x73 => OpCode { len: 2, cycles: 8, mode: AddressingMode::Indirect_Y },
        0x74 => OpCode { len: 2, cycles: 4, mode: AddressingMode::ZeroPage_X },
        0x75 => OpCode { len: 2, cycles: 4, mode: AddressingMode::ZeroPage_X },
        0x76 => OpCode { len: 2, cycles: 6, mode: AddressingMode::ZeroPage_X },
        0x77 => OpCode { len: 2, cycles: 6, mode: AddressingMode::ZeroPage_X },
        0x78 => OpCode { len: 1, cycles: 2, mode: AddressingMode::NoneAddressing },
        0x79 => OpCode { len: 3, cycles: 4, mode: AddressingMode::Absolute_Y },
        0x7a => OpCode { len: 1, cycles: 2, mode: AddressingMode::NoneAddressing },
        0x7b => OpCode { len: 3, cycles: 7, mode: AddressingMode::Absolute_Y },
        0x7c => OpCode { len: 3, cycles: 4, mode: AddressingMode::Absolute_X },
        0x7d => OpCode { len: 3, cycles: 4, mode: AddressingMode::Absolute_X },
        0x7e => OpCode { len: 3, cycles: 7, mode: AddressingMode::Absolute_X },
        0x7f => OpCode { len: 3, cycles: 7, mode: AddressingMode::Absolute_X },
        0x80 => OpCode { len: 2, cycles: 2, mode: AddressingMode::Immediate },
        0x81 => OpCode { len: 2, cycles: 6, mode: AddressingMode::Indirect_X },
        0x82 => OpCode { len: 2, cycles: 2, mode: AddressingMode::Immediate },
        0x83 => OpCode { len: 2, cycles: 6, mode: AddressingMode::Indirect_X },
        0x84 => OpCode { len: 2, cycles: 3, mode: AddressingMode::ZeroPage },
        0x85 => OpCode { len: 2, cycles: 3, mode: AddressingMode::ZeroPage },
        0x86 => OpCode { len: 2, cycles: 3, mode: AddressingMode::ZeroPage },
        0x87 => OpCode { len: 2, cycles: 3, mode: AddressingMode::ZeroPage },
        0x88 => OpCode { len: 1, cycles: 2, mode: AddressingMode::NoneAddressing },
        0x89 => OpCode { len: 2, cycles: 2, mode: AddressingMode::Immediate },
        0x8a => OpCode { len: 1, cycles: 2, mode: AddressingMode::NoneAddressing },
        0x8b => OpCode { len: 2, cycles: 2, mode: AddressingMode::Immediate },
        0x8c => OpCode { len: 3, cycles: 4, mode: AddressingMode::Absolute },
        0x8d => OpCode { len: 3, cycles: 4, mode: AddressingMode::Absolute },
        0x8e => OpCode { len: 3, cycles: 4, mode: AddressingMode::Absolute },
        0x8f => OpCode { len: 3, cycles: 4, mode: AddressingMode::Absolute },
        0x90 => OpCode { len: 2, cycles: 2, mode: AddressingMode::NoneAddressing },
        0x91 => OpCode { len: 2, cycles: 6, mode: AddressingMode::Indirect_Y },
        0x92 => OpCode { len: 1, cycles: 2, mode: AddressingMode::NoneAddressing },
        0x93 => OpCode { len: 2, cycles: 6, mode: AddressingMode::Indirect_Y },
        0x94 => OpCode { len: 2, cycles: 4, mode: AddressingMode::ZeroPage_X },
        0x95 => OpCode { len: 2, cycles: 4, mode: AddressingMode::ZeroPage_X },
        0x96 => OpCode { len: 2, cycles: 4, mode: AddressingMode::ZeroPage_Y },
        0x97 => OpCode { len: 2, cycles: 4, mode: AddressingMode::ZeroPage_Y },
        0x98 => OpCode { len: 1, cycles: 2, mode: AddressingMode::NoneAddressing },
        0x99 => OpCode { len: 3, cycles: 5, mode: AddressingMode::Absolute_Y },
        0x9a => OpCode { len: 1, cycles: 2, mode: AddressingMode::NoneAddressing },
        0x9b => OpCode { len: 3, cycles: 5, mode: AddressingMode::Absolute_Y },
        0x9c => OpCode { len: 3, cycles: 5, mode: AddressingMode::Absolute_X },
        0x9d => OpCode { len: 3, cycles: 5, mode: AddressingMode::Absolute_X },
        0x9e => OpCode { len: 3, cycles: 5, mode: AddressingMode::Absolute_Y },
        0x9f => OpCode { len: 3, cycles: 5, mode: AddressingMode::Absolute_Y },
        0xa0 => OpCode { len: 2, cycles: 2, mode: AddressingMode::Immediate },
        0xa1 => OpCode { len: 2, cycles: 6, mode: AddressingMode::Indirect_X },
        0xa2 => OpCode { len: 2, cycles: 2, mode: AddressingMode::Immediate },
        0xa3 => OpCode { len: 2, cycles: 6, mode: AddressingMode::Indirect_X },
        0xa4 => OpCode { len: 2, cycles: 3, mode: AddressingMode::ZeroPage },
        0xa5 => OpCode { len: 2, cycles: 3, mode: AddressingMode::ZeroPage },
        0xa6 => OpCode { len: 2, cycles: 3, mode: AddressingMode::ZeroPage },
        0xa7 => OpCode { len: 2, cycles: 3, mode: AddressingMode::ZeroPage },
        0xa8 => OpCode { len: 1, cycles: 2, mode: AddressingMode::NoneAddressing },
        0xa9 => OpCode { len: 2, cycles: 2, mode: AddressingMode::Immediate },
        0xaa => OpCode { len: 1, cycles: 2, mode: AddressingMode::NoneAddressing },
        0xab => OpCode { len: 2, cycles: 2, mode: AddressingMode::Immediate },
        0xac => OpCode { len: 3, cycles: 4, mode: AddressingMode::Absolute },
        0xad => OpCode { len: 3, cycles: 4, mode: AddressingMode::Absolute },
        0xae => OpCode { len: 3, cycles: 4, mode: AddressingMode::Absolute },
        0xaf => OpCode { len: 3, cycles: 4, mode: AddressingMode::Absolute },
        0xb0 => OpCode { len: 2, cycles: 2, mode: AddressingMode::NoneAddressing },
        0xb1 => OpCode { len: 2, cycles: 5, mode: AddressingMode::Indirect_Y },
        0xb2 => OpCode { len: 1, cycles: 2, mode: AddressingMode::NoneAddressing },
        0xb3 => OpCode { len: 2, cycles: 5, mode: AddressingMode::Indirect_Y },
        0xb4 => OpCode { len: 2, cycles: 4, mode: AddressingMode::ZeroPage_X },
        0xb5 => OpCode { len: 2, cycles: 4, mode: AddressingMode::ZeroPage_X },
        0xb6 => OpCode { len: 2, cycles: 4, mode: AddressingMode::ZeroPage_Y },
        0xb7 => OpCode { len: 2, cycles: 4, mode: AddressingMode::ZeroPage_Y },
        0xb8 => OpCode { len: 1, cycles: 2, mode: AddressingMode::NoneAddressing },
        0xb9 => OpCode { len: 3, cycles: 4, mode: AddressingMode::Absolute_Y },
        0xba => OpCode { len: 1, cycles: 2, mode: AddressingMode::NoneAddressing },
        0xbb => OpCode { len: 3, cycles: 4, mode: AddressingMode::Absolute_Y },
        0xbc => OpCode { len: 3, cycles: 4, mode: AddressingMode::Absolute_X },
        0xbd => OpCode { len: 3, cycles: 4, mode: AddressingMode::Absolute_X },
        0xbe => OpCode { len: 3, cycles: 4, mode: AddressingMode::Absolute_Y },
        0xbf => OpCode { len: 3, cycles: 4, mode: AddressingMode::Absolute_Y },
        0xc0 => OpCode { len: 2, cycles: 2, mode: AddressingMode::Immediate },
        0xc1 => OpCode { len: 2, cycles: 6, mode: AddressingMode::Indirect_X },
        0xc2 => OpCode { len: 2, cycles: 2, mode: AddressingMode::Immediate },
        0xc3 => OpCode { len: 2, cycles: 8, mode: AddressingMode::Indirect_X },
        0xc4 => OpCode { len: 2, cycles: 3, mode: AddressingMode::ZeroPage },
        0xc5 => OpCode { len: 2, cycles: 3, mode: AddressingMode::ZeroPage },
        0xc6 => OpCode { len: 2, cycles: 5, mode: AddressingMode::ZeroPage },
        0xc7 => OpCode { len: 2, cycles: 5, mode: AddressingMode::ZeroPage },
        0xc8 => OpCode { len: 1, cycles: 2, mode: AddressingMode::NoneAddressing },
        0xc9 => OpCode { len: 2, cycles: 2, mode: AddressingMode::Immediate },
        0xca => OpCode { len: 1, cycles: 2, mode: AddressingMode::NoneAddressing },
        0xcb => OpCode { len: 2, cycles: 2, mode: AddressingMode::Immediate },
        0xcc => OpCode { len: 3, cycles: 4, mode: AddressingMode::Absolute },
        0xcd => OpCode { len: 3, cycles: 4, mode: AddressingMode::Absolute },
        0xce => OpCode { len: 3, cycles: 6, mode: AddressingMode::Absolute },
        0xcf => OpCode { len: 3, cycles: 6, mode: AddressingMode::Absolute },
        0xd0 => OpCode { len: 2, cycles: 2, mode: AddressingMode::NoneAddressing },
        0xd1 => OpCode { len: 2, cycles: 5, mode: AddressingMode::Indirect_Y },
        0xd2 => OpCode { len: 1, cycles: 2, mode: AddressingMode::NoneAddressing },
        0xd3 => OpCode { len: 2, cycles: 8, mode: AddressingMode::Indirect_Y },
        0xd4 => OpCode { len: 2, cycles: 4, mode: AddressingMode::ZeroPage_X },
        0xd5 => OpCode { len: 2, cycles: 4, mode: AddressingMode::ZeroPage_X },
        0xd6 => OpCode { len: 2, cycles: 6, mode: AddressingMode::ZeroPage_X },
        0xd7 => OpCode { len: 2, cycles: 6, mode: AddressingMode::ZeroPage_X },
        0xd8 => OpCode { len: 1, cycles: 2, mode: AddressingMode::NoneAddressing },
        0xd9 => OpCode { len: 3, cycles: 4, mode: AddressingMode::Absolute_Y },
        0xda => OpCode { len: 1, cycles: 2, mode: AddressingMode::NoneAddressing },
        0xdb => OpCode { len: 3, cycles: 7, mode: AddressingMode::Absolute_Y },
        0xdc => OpCode { len: 3, cycles: 4, mode: AddressingMode::Absolute_X },
        0xdd => OpCode { len: 3, cycles: 4, mode: AddressingMode::Absolute_X },
        0xde => OpCode { len: 3, cycles: 7, mode: AddressingMode::Absolute_X },
        0xdf => OpCode { len: 3, cycles: 7, mode: AddressingMode::Absolute_X },
        0xe0 => OpCode { len: 2, cycles: 2, mode: AddressingMode::Immediate },
        0xe1 => OpCode { len: 2, cycles: 6, mode: AddressingMode::Indirect_X },
        0xe2 => OpCode { len: 2, cycles: 2, mode: AddressingMode::Immediate },
        0xe3 => OpCode { len: 2, cycles: 8, mode: AddressingMode::Indirect_X },
        0xe4 => OpCode { len: 2, cycles: 3, mode: AddressingMode::ZeroPage },
        0xe5 => OpCode { len: 2, cycles: 3, mode: AddressingMode::ZeroPage },
        0xe6 => OpCode { len: 2, cycles: 5, mode: AddressingMode::ZeroPage },
        0xe7 => OpCode { len: 2, cycles: 5, mode: AddressingMode::ZeroPage },
        0xe8 => OpCode { len: 1, cycles: 2, mode: AddressingMode::NoneAddressing },
        0xe9 => OpCode { len: 2, cycles: 2, mode: AddressingMode::Immediate },
        0xea => OpCode { len: 1, cycles: 2, mode: AddressingMode::NoneAddressing },
        0xeb => OpCode { len: 2, cycles: 2, mode: AddressingMode::Immediate },
        0xec => OpCode { len: 3, cycles: 4, mode: AddressingMode::Absolute },
        0xed => OpCode { len: 3, cycles: 4, mode: AddressingMode::Absolute },
        0xee => OpCode { len: 3, cycles: 6, mode: AddressingMode::Absolute },
        0xef => OpCode { len: 3, cycles: 6, mode: AddressingMode::Absolute },
        0xf0 => OpCode { len: 2, cycles: 2, mode: AddressingMode::NoneAddressing },
        0xf1 => OpCode { len: 2, cycles: 5, mode: AddressingMode::Indirect_Y },
        0xf2 => OpCode { len: 1, cycles: 2, mode: AddressingMode::NoneAddressing },
        0xf3 => OpCode { len: 2, cycles: 8, mode: AddressingMode::Indirect_Y },
        0xf4 => OpCode { len: 2, cycles: 4, mode: AddressingMode::ZeroPage_X },
        0xf5 => OpCode { len: 2, cycles: 4, mode: AddressingMode::ZeroPage_X },
        0xf6 => OpCode { len: 2, cycles: 6, mode: AddressingMode::ZeroPage_X },
        0xf7 => OpCode { len: 2, cycles: 6, mode: AddressingMode::ZeroPage_X },
        0xf8 => OpCode { len: 1, cycles: 2, mode: AddressingMode::NoneAddressing },
        0xf9 => OpCode { len: 3, cycles: 4, mode: AddressingMode::Absolute_Y },
        0xfa => OpCode { len: 1, cycles: 2, mode: AddressingMode::NoneAddressing },
        0xfb => OpCode { len: 3, cycles: 7, mode: AddressingMode::Absolute_Y },
        0xfc => OpCode { len: 3, cycles: 4, mode: AddressingMode::Absolute_X },
        0xfd => OpCode { len: 3, cycles: 4, mode: AddressingMode::Absolute_X },
        0xfe => OpCode { len: 3, cycles: 7, mode: AddressingMode::Absolute_X },
        _ => OpCode { len: 3, cycles: 7, mode: AddressingMode::Absolute_X },    }
}

/// Executable form of `spec_opcode`.
pub fn opcode_info(code: u8) -> (r: OpCode)
    ensures
        r == spec_opcode(code),
{
    proof {
        reveal(spec_opcode);
    }
    match code {
        0x00 => OpCode { len: 1, cycles: 7, mode: AddressingMode::NoneAddressing },
        0x01 => OpCode { len: 2, cycles: 6, mode: AddressingMode::Indirect_X },
        0x02 => OpCode { len: 1, cycles: 2, mode: AddressingMode::NoneAddressing },
        0x03 => OpCode { len: 2, cycles: 8, mode: AddressingMode::Indirect_X },
        0x04 => OpCode { len: 2, cycles: 3, mode: AddressingMode::ZeroPage },
        0x05 => OpCode { len: 2, cycles: 3, mode: AddressingMode::ZeroPage },
        0x06 => OpCode { len: 2, cycles: 5, mode: AddressingMode::ZeroPage },
        0x07 => OpCode { len: 2, cycles: 5, mode: AddressingMode::ZeroPage },
        0x08 => OpCode { len: 1, cycles: 3, mode: AddressingMode::NoneAddressing },
        0x09 => OpCode { len: 2, cycles: 2, mode: AddressingMode::Immediate },
        0x0a => OpCode { len: 1, cycles: 2, mode: AddressingMode::NoneAddressing },
        0x0b => OpCode { len: 2, cycles: 2, mode: AddressingMode::Immediate },
        0x0c => OpCode { len: 3, cycles: 4, mode: AddressingMode::Absolute },
        0x0d => OpCode { len: 3, cycles: 4, mode: AddressingMode::Absolute },
        0x0e => OpCode { len: 3, cycles: 6, mode: AddressingMode::Absolute },
        0x0f => OpCode { len: 3, cycles: 6, mode: AddressingMode::Absolute },
        0x10 => OpCode { len: 2, cycles: 2, mode: AddressingMode::NoneAddressing },
        0x11 => OpCode { len: 2, cycles: 5, mode: AddressingMode::Indirect_Y },
        0x12 => OpCode { len: 1, cycles: 2, mode: AddressingMode::NoneAddressing },
        0x13 => OpCode { len: 2, cycles: 8, mode: AddressingMode::Indirect_Y },
        0x14 => OpCode { len: 2, cycles: 4, mode: AddressingMode::ZeroPage_X },
        0x15 => OpCode { len: 2, cycles: 4, mode: AddressingMode::ZeroPage_X },
        0x16 => OpCode { len: 2, cycles: 6, mode: AddressingMode::ZeroPage_X },
        0x17 => OpCode { len: 2, cycles: 6, mode: AddressingMode::ZeroPage_X },
        0x18 => OpCode { len: 1, cycles: 2, mode: AddressingMode::NoneAddressing },
        0x19 => OpCode { len: 3, cycles: 4, mode: AddressingMode::Absolute_Y },
        0x1a => OpCode { len: 1, cycles: 2, mode: AddressingMode::NoneAddressing },
        0x1b => OpCode { len: 3, cycles: 7, mode: AddressingMode::Absolute_Y },
        0x1c => OpCode { len: 3, cycles: 4, mode: AddressingMode::Absolute_X },
        0x1d => OpCode { len: 3, cycles: 4, mode: AddressingMode::Absolute_X },
        0x1e => OpCode { len: 3, cycles: 7, mode: AddressingMode::Absolute_X },
        0x1f => OpCode { len: 3, cycles: 7, mode: AddressingMode::Absolute_X },
        0x20 => OpCode { len: 3, cycles: 6, mode: AddressingMode::NoneAddressing },
        0x21 => OpCode { len: 2, cycles: 6, mode: AddressingMode::Indirect_X },
        0x22 => OpCode { len: 1, cycles: 2, mode: AddressingMode::NoneAddressing },
        0x23 => OpCode { len: 2, cycles: 8, mode: AddressingMode::Indirect_X },
        0x24 => OpCode { len: 2, cycles: 3, mode: AddressingMode::ZeroPage },
        0x25 => OpCode { len: 2, cycles: 3, mode: AddressingMode::ZeroPage },
        0x26 => OpCode { len: 2, cycles: 5, mode: AddressingMode::ZeroPage },
        0x27 => OpCode { len: 2, cycles: 5, mode: AddressingMode::ZeroPage },
        0x28 => OpCode { len: 1, cycles: 4, mode: AddressingMode::NoneAddressing },
        0x29 => OpCode { len: 2, cycles: 2, mode: AddressingMode::Immediate },
        0x2a => OpCode { len: 1, cycles: 2, mode: AddressingMode::NoneAddressing },
        0x2b => OpCode { len: 2, cycles: 2, mode: AddressingMode::Immediate },
        0x2c => OpCode { len: 3, cycles: 4, mode: AddressingMode::Absolute },
        0x2d => OpCode { len: 3, cycles: 4, mode: AddressingMode::Absolute },
        0x2e => OpCode { len: 3, cycles: 6, mode: AddressingMode::Absolute },
        0x2f => OpCode { len: 3, cycles: 6, mode: AddressingMode::Absolute },
        0x30 => OpCode { len: 2, cycles: 2, mode: AddressingMode::NoneAddressing },
        0x31 => OpCode { len: 2, cycles: 5, mode: AddressingMode::Indirect_Y },
        0x32 => OpCode { len: 1, cycles: 2, mode: AddressingMode::NoneAddressing },
        0x33 => OpCode { len: 2, cycles: 8, mode: AddressingMode::Indirect_Y },
        0x34 => OpCode { len: 2, cycles: 4, mode: AddressingMode::ZeroPage_X },
        0x35 => OpCode { len: 2, cycles: 4, mode: AddressingMode::ZeroPage_X },
        0x36 => OpCode { len: 2, cycles: 6, mode: AddressingMode::ZeroPage_X },
        0x37 => OpCode { len: 2, cycles: 6, mode: AddressingMode::ZeroPage_X },
        0x38 => OpCode { len: 1, cycles: 2, mode: AddressingMode::NoneAddressing },
        0x39 => OpCode { len: 3, cycles: 4, mode: AddressingMode::Absolute_Y },
        0x3a => OpCode { len: 1, cycles: 2, mode: AddressingMode::NoneAddressing },
        0x3b => OpCode { len: 3, cycles: 7, mode: AddressingMode::Absolute_Y },
        0x3c => OpCode { len: 3, cycles: 4, mode: AddressingMode::Absolute_X },
        0x3d => OpCode { len: 3, cycles: 4, mode: AddressingMode::Absolute_X },
        0x3e => OpCode { len: 3, cycles: 7, mode: AddressingMode::Absolute_X },
        0x3f => OpCode { len: 3, cycles: 7, mode: AddressingMode::Absolute_X },
        0x40 => OpCode { len: 1, cycles: 6, mode: AddressingMode::NoneAddressing },
        0x41 => OpCode { len: 2, cycles: 6, mode: AddressingMode::Indirect_X },
        0x42 => OpCode { len: 1, cycles: 2, mode: AddressingMode::NoneAddressing },
        0x43 => OpCode { len: 2, cycles: 8, mode: AddressingMode::Indirect_X },
        0x44 => OpCode { len: 2, cycles: 3, mode: AddressingMode::ZeroPage },
        0x45 => OpCode { len: 2, cycles: 3, mode: AddressingMode::ZeroPage },
        0x46 => OpCode { len: 2, cycles: 5, mode: AddressingMode::ZeroPage },
        0x47 => OpCode { len: 2, cycles: 5, mode: AddressingMode::ZeroPage },
        0x48 => OpCode { len: 1, cycles: 3, mode: AddressingMode::NoneAddressing },
        0x49 => OpCode { len: 2, cycles: 2, mode: AddressingMode::Immediate },
        0x4a => OpCode { len: 1, cycles: 2, mode: AddressingMode::NoneAddressing },
        0x4b => OpCode { len: 2, cycles: 2, mode: AddressingMode::Immediate },
        0x4c => OpCode { len: 3, cycles: 3, mode: AddressingMode::NoneAddressing },
        0x4d => OpCode { len: 3, cycles: 4, mode: AddressingMode::Absolute },
        0x4e => OpCode { len: 3, cycles: 6, mode: AddressingMode::Absolute },
        0x4f => OpCode { len: 3, cycles: 6, mode: AddressingMode::Absolute },
        0x50 => OpCode { len: 2, cycles: 2, mode: AddressingMode::NoneAddressing },
        0x51 => OpCode { len: 2, cycles: 5, mode: AddressingMode::Indirect_Y },
        0x52 => OpCode { len: 1, cycles: 2, mode: AddressingMode::NoneAddressing },
        0x53 => OpCode { len: 2, cycles: 8, mode: AddressingMode::Indirect_Y },
        0x54 => OpCode { len: 2, cycles: 4, mode: AddressingMode::ZeroPage_X },
        0x55 => OpCode { len: 2, cycles: 4, mode: AddressingMode::ZeroPage_X },
        0x56 => OpCode { len: 2, cycles: 6, mode: AddressingMode::ZeroPage_X },
        0x57 => OpCode { len: 2, cycles: 6, mode: AddressingMode::ZeroPage_X },
        0x58 => OpCode { len: 1, cycles: 2, mode: AddressingMode::NoneAddressing },
        0x59 => OpCode { len: 3, cycles: 4, mode: AddressingMode::Absolute_Y },
        0x5a => OpCode { len: 1, cycles: 2, mode: AddressingMode::NoneAddressing },
        0x5b => OpCode { len: 3, cycles: 7, mode: AddressingMode::Absolute_Y },
        0x5c => OpCode { len: 3, cycles: 4, mode: AddressingMode::Absolute_X },
        0x5d => OpCode { len: 3, cycles: 4, mode: AddressingMode::Absolute_X },
        0x5e => OpCode { len: 3, cycles: 7, mode: AddressingMode::Absolute_X },
        0x5f => OpCode { len: 3, cycles: 7, mode: AddressingMode::Absolute_X },
        0x60 => OpCode { len: 1, cycles: 6, mode: AddressingMode::NoneAddressing },
        0x61 => OpCode { len: 2, cycles: 6, mode: AddressingMode::Indirect_X },
        0x62 => OpCode { len: 1, cycles: 2, mode: AddressingMode::NoneAddressing },
        0x63 => OpCode { len: 2, cycles: 8, mode: AddressingMode::Indirect_X },
        0x64 => OpCode { len: 2, cycles: 3, mode: AddressingMode::ZeroPage },
        0x65 => OpCode { len: 2, cycles: 3, mode: AddressingMode::ZeroPage },
        0x66 => OpCode { len: 2, cycles: 5, mode: AddressingMode::ZeroPage },
        0x67 => OpCode { len: 2, cycles: 5, mode: AddressingMode::ZeroPage },
        0x68 => OpCode { len: 1, cycles: 4, mode: AddressingMode::NoneAddressing },
        0x69 => OpCode { len: 2, cycles: 2, mode: AddressingMode::Immediate },
        0x6a => OpCode { len: 1, cycles: 2, mode: AddressingMode::NoneAddressing },
        0x6b => OpCode { len: 2, cycles: 2, mode: AddressingMode::Immediate },
        0x6c => OpCode { len: 3, cycles: 5, mode: AddressingMode::NoneAddressing },
        0x6d => OpCode { len: 3, cycles: 4, mode: AddressingMode::Absolute },
        0x6e => OpCode { len: 3, cycles: 6, mode: AddressingMode::Absolute },
        0x6f => OpCode { len: 3, cycles: 6, mode: AddressingMode::Absolute },
        0x70 => OpCode { len: 2, cycles: 2, mode: AddressingMode::NoneAddressing },
        0x71 => OpCode { len: 2, cycles: 5, mode: AddressingMode::Indirect_Y },
        0x72 => OpCode { len: 1, cycles: 2, mode: AddressingMode::NoneAddressing },
        0x73 => OpCode { len: 2, cycles: 8, mode: AddressingMode::Indirect_Y },
        0x74 => OpCode { len: 2, cycles: 4, mode: AddressingMode::ZeroPage_X },
        0x75 => OpCode { len: 2, cycles: 4, mode: AddressingMode::ZeroPage_X },
        0x76 => OpCode { len: 2, cycles: 6, mode: AddressingMode::ZeroPage_X },
        0x77 => OpCode { len: 2, cycles: 6, mode: AddressingMode::ZeroPage_X },
        0x78 => OpCode { len: 1, cycles: 2, mode: AddressingMode::NoneAddressing },
        0x79 => OpCode { len: 3, cycles: 4, mode: AddressingMode::Absolute_Y },
        0x7a => OpCode { len: 1, cycles: 2, mode: AddressingMode::NoneAddressing },
        0x7b => OpCode { len: 3, cycles: 7, mode: AddressingMode::Absolute_Y },
        0x7c => OpCode { len: 3, cycles: 4, mode: AddressingMode::Absolute_X },
        0x7d => OpCode { len: 3, cycles: 4, mode: AddressingMode::Absolute_X },
        0x7e => OpCode { len: 3, cycles: 7, mode: AddressingMode::Absolute_X },
        0x7f => OpCode { len: 3, cycles: 7, mode: AddressingMode::Absolute_X },
        0x80 => OpCode { len: 2, cycles: 2, mode: AddressingMode::Immediate },
        0x81 => OpCode { len: 2, cycles: 6, mode: AddressingMode::Indirect_X },
        0x82 => OpCode { len: 2, cycles: 2, mode: AddressingMode::Immediate },
        0x83 => OpCode { len: 2, cycles: 6, mode: AddressingMode::Indirect_X },
        0x84 => OpCode { len: 2, cycles: 3, mode: AddressingMode::ZeroPage },
        0x85 => OpCode { len: 2, cycles: 3, mode: AddressingMode::ZeroPage },
        0x86 => OpCode { len: 2, cycles: 3, mode: AddressingMode::ZeroPage },
        0x87 => OpCode { len: 2, cycles: 3, mode: AddressingMode::ZeroPage },
        0x88 => OpCode { len: 1, cycles: 2, mode: AddressingMode::NoneAddressing },
        0x89 => OpCode { len: 2, cycles: 2, mode: AddressingMode::Immediate },
        0x8a => OpCode { len: 1, cycles: 2, mode: AddressingMode::NoneAddressing },
        0x8b => OpCode { len: 2, cycles: 2, mode: AddressingMode::Immediate },
        0x8c => OpCode { len: 3, cycles: 4, mode: AddressingMode::Absolute },
        0x8d => OpCode { len: 3, cycles: 4, mode: AddressingMode::Absolute },
        0x8e => OpCode { len: 3, cycles: 4, mode: AddressingMode::Absolute },
        0x8f => OpCode { len: 3, cycles: 4, mode: AddressingMode::Absolute },
        0x90 => OpCode { len: 2, cycles: 2, mode: AddressingMode::NoneAddressing },
        0x91 => OpCode { len: 2, cycles: 6, mode: AddressingMode::Indirect_Y },
        0x92 => OpCode { len: 1, cycles: 2, mode: AddressingMode::NoneAddressing },
        0x93 => OpCode { len: 2, cycles: 6, mode: AddressingMode::Indirect_Y },
        0x94 => OpCode { len: 2, cycles: 4, mode: AddressingMode::ZeroPage_X },
        0x95 => OpCode { len: 2, cycles: 4, mode: AddressingMode::ZeroPage_X },
        0x96 => OpCode { len: 2, cycles: 4, mode: AddressingMode::ZeroPage_Y },
        0x97 => OpCode { len: 2, cycles: 4, mode: AddressingMode::ZeroPage_Y },
        0x98 => OpCode { len: 1, cycles: 2, mode: AddressingMode::NoneAddressing },
        0x99 => OpCode { len: 3, cycles: 5, mode: AddressingMode::Absolute_Y },
        0x9a => OpCode { len: 1, cycles: 2, mode: AddressingMode::NoneAddressing },
        0x9b => OpCode { len: 3, cycles: 5, mode: AddressingMode::Absolute_Y },
        0x9c => OpCode { len: 3, cycles: 5, mode: AddressingMode::Absolute_X },
        0x9d => OpCode { len: 3, cycles: 5, mode: AddressingMode::Absolute_X },
        0x9e => OpCode { len: 3, cycles: 5, mode: AddressingMode::Absolute_Y },
        0x9f => OpCode { len: 3, cycles: 5, mode: AddressingMode::Absolute_Y },
        0xa0 => OpCode { len: 2, cycles: 2, mode: AddressingMode::Immediate },
        0xa1 => OpCode { len: 2, cycles: 6, mode: AddressingMode::Indirect_X },
        0xa2 => OpCode { len: 2, cycles: 2, mode: AddressingMode::Immediate },
        0xa3 => OpCode { len: 2, cycles: 6, mode: AddressingMode::Indirect_X },
        0xa4 => OpCode { len: 2, cycles: 3, mode: AddressingMode::ZeroPage },
        0xa5 => OpCode { len: 2, cycles: 3, mode: AddressingMode::ZeroPage },
        0xa6 => OpCode { len: 2, cycles: 3, mode: AddressingMode::ZeroPage },
        0xa7 => OpCode { len: 2, cycles: 3, mode: AddressingMode::ZeroPage },
        0xa8 => OpCode { len: 1, cycles: 2, mode: AddressingMode::NoneAddressing },
        0xa9 => OpCode { len: 2, cycles: 2, mode: AddressingMode::Immediate },
        0xaa => OpCode { len: 1, cycles: 2, mode: AddressingMode::NoneAddressing },
        0xab => OpCode { len: 2, cycles: 2, mode: AddressingMode::Immediate },
        0xac => OpCode { len: 3, cycles: 4, mode: AddressingMode::Absolute },
        0xad => OpCode { len: 3, cycles: 4, mode: AddressingMode::Absolute },
        0xae => OpCode { len: 3, cycles: 4, mode: AddressingMode::Absolute },
        0xaf => OpCode { len: 3, cycles: 4, mode: AddressingMode::Absolute },
        0xb0 => OpCode { len: 2, cycles: 2, mode: AddressingMode::NoneAddressing },
        0xb1 => OpCode { len: 2, cycles: 5, mode: AddressingMode::Indirect_Y },
        0xb2 => OpCode { len: 1, cycles: 2, mode: AddressingMode::NoneAddressing },
        0xb3 => OpCode { len: 2, cycles: 5, mode: AddressingMode::Indirect_Y },
        0xb4 => OpCode { len: 2, cycles: 4, mode: AddressingMode::ZeroPage_X },
        0xb5 => OpCode { len: 2, cycles: 4, mode: AddressingMode::ZeroPage_X },
        0xb6 => OpCode { len: 2, cycles: 4, mode: AddressingMode::ZeroPage_Y },
        0xb7 => OpCode { len: 2, cycles: 4, mode: AddressingMode::ZeroPage_Y },
        0xb8 => OpCode { len: 1, cycles: 2, mode: AddressingMode::NoneAddressing },
        0xb9 => OpCode { len: 3, cycles: 4, mode: AddressingMode::Absolute_Y },
        0xba => OpCode { len: 1, cycles: 2, mode: AddressingMode::NoneAddressing },
        0xbb => OpCode { len: 3, cycles: 4, mode: AddressingMode::Absolute_Y },
        0xbc => OpCode { len: 3, cycles: 4, mode: AddressingMode::Absolute_X },
        0xbd => OpCode { len: 3, cycles: 4, mode: AddressingMode::Absolute_X },
        0xbe => OpCode { len: 3, cycles: 4, mode: AddressingMode::Absolute_Y },
        0xbf => OpCode { len: 3, cycles: 4, mode: AddressingMode::Absolute_Y },
        0xc0 => OpCode { len: 2, cycles: 2, mode: AddressingMode::Immediate },
        0xc1 => OpCode { len: 2, cycles: 6, mode: AddressingMode::Indirect_X },
        0xc2 => OpCode { len: 2, cycles: 2, mode: AddressingMode::Immediate },
        0xc3 => OpCode { len: 2, cycles: 8, mode: AddressingMode::Indirect_X },
        0xc4 => OpCode { len: 2, cycles: 3, mode: AddressingMode::ZeroPage },
        0xc5 => OpCode { len: 2, cycles: 3, mode: AddressingMode::ZeroPage },
        0xc6 => OpCode { len: 2, cycles: 5, mode: AddressingMode::ZeroPage },
        0xc7 => OpCode { len: 2, cycles: 5, mode: AddressingMode::ZeroPage },
        0xc8 => OpCode { len: 1, cycles: 2, mode: AddressingMode::NoneAddressing },
        0xc9 => OpCode { len: 2, cycles: 2, mode: AddressingMode::Immediate },
        0xca => OpCode { len: 1, cycles: 2, mode: AddressingMode::NoneAddressing },
        0xcb => OpCode { len: 2, cycles: 2, mode: AddressingMode::Immediate },
        0xcc => OpCode { len: 3, cycles: 4, mode: AddressingMode::Absolute },
        0xcd => OpCode { len: 3, cycles: 4, mode: AddressingMode::Absolute },
        0xce => OpCode { len: 3, cycles: 6, mode: AddressingMode::Absolute },
        0xcf => OpCode { len: 3, cycles: 6, mode: AddressingMode::Absolute },
        0xd0 => OpCode { len: 2, cycles: 2, mode: AddressingMode::NoneAddressing },
        0xd1 => OpCode { len: 2, cycles: 5, mode: AddressingMode::Indirect_Y },
        0xd2 => OpCode { len: 1, cycles: 2, mode: AddressingMode::NoneAddressing },
        0xd3 => OpCode { len: 2, cycles: 8, mode: AddressingMode::Indirect_Y },
        0xd4 => OpCode { len: 2, cycles: 4, mode: AddressingMode::ZeroPage_X },
        0xd5 => OpCode { len: 2, cycles: 4, mode: AddressingMode::ZeroPage_X },
        0xd6 => OpCode { len: 2, cycles: 6, mode: AddressingMode::ZeroPage_X },
        0xd7 => OpCode { len: 2, cycles: 6, mode: AddressingMode::ZeroPage_X },
        0xd8 => OpCode { len: 1, cycles: 2, mode: AddressingMode::NoneAddressing },
        0xd9 => OpCode { len: 3, cycles: 4, mode: AddressingMode::Absolute_Y },
        0xda => OpCode { len: 1, cycles: 2, mode: AddressingMode::NoneAddressing },
        0xdb => OpCode { len: 3, cycles: 7, mode: AddressingMode::Absolute_Y },
        0xdc => OpCode { len: 3, cycles: 4, mode: AddressingMode::Absolute_X },
        0xdd => OpCode { len: 3, cycles: 4, mode: AddressingMode::Absolute_X },
        0xde => OpCode { len: 3, cycles: 7, mode: AddressingMode::Absolute_X },
        0xdf => OpCode { len: 3, cycles: 7, mode: AddressingMode::Absolute_X },
        0xe0 => OpCode { len: 2, cycles: 2, mode: AddressingMode::Immediate },
        0xe1 => OpCode { len: 2, cycles: 6, mode: AddressingMode::Indirect_X },
        0xe2 => OpCode { len: 2, cycles: 2, mode: AddressingMode::Immediate },
        0xe3 => OpCode { len: 2, cycles: 8, mode: AddressingMode::Indirect_X },
        0xe4 => OpCode { len: 2, cycles: 3, mode: AddressingMode::ZeroPage },
        0xe5 => OpCode { len: 2, cycles: 3, mode: AddressingMode::ZeroPage },
        0xe6 => OpCode { len: 2, cycles: 5, mode: AddressingMode::ZeroPage },
        0xe7 => OpCode { len: 2, cycles: 5, mode: AddressingMode::ZeroPage },
        0xe8 => OpCode { len: 1, cycles: 2, mode: AddressingMode::NoneAddressing },
        0xe9 => OpCode { len: 2, cycles: 2, mode: AddressingMode::Immediate },
        0xea => OpCode { len: 1, cycles: 2, mode: AddressingMode::NoneAddressing },
        0xeb => OpCode { len: 2, cycles: 2, mode: AddressingMode::Immediate },
        0xec => OpCode { len: 3, cycles: 4, mode: AddressingMode::Absolute },
        0xed => OpCode { len: 3, cycles: 4, mode: AddressingMode::Absolute },
        0xee => OpCode { len: 3, cycles: 6, mode: AddressingMode::Absolute },
        0xef => OpCode { len: 3, cycles: 6, mode: AddressingMode::Absolute },
        0xf0 => OpCode { len: 2, cycles: 2, mode: AddressingMode::NoneAddressing },
        0xf1 => OpCode { len: 2, cycles: 5, mode: AddressingMode::Indirect_Y },
        0xf2 => OpCode { len: 1, cycles: 2, mode: AddressingMode::NoneAddressing },
        0xf3 => OpCode { len: 2, cycles: 8, mode: AddressingMode::Indirect_Y },
        0xf4 => OpCode { len: 2, cycles: 4, mode: AddressingMode::ZeroPage_X },
        0xf5 => OpCode { len: 2, cycles: 4, mode: AddressingMode::ZeroPage_X },
        0xf6 => OpCode { len: 2, cycles: 6, mode: AddressingMode::ZeroPage_X },
        0xf7 => OpCode { len: 2, cycles: 6, mode: AddressingMode::ZeroPage_X },
        0xf8 => OpCode { len: 1, cycles: 2, mode: AddressingMode::NoneAddressing },
        0xf9 => OpCode { len: 3, cycles: 4, mode: AddressingMode::Absolute_Y },
        0xfa => OpCode { len: 1, cycles: 2, mode: AddressingMode::NoneAddressing },
        0xfb => OpCode { len: 3, cycles: 7, mode: AddressingMode::Absolute_Y },
        0xfc => OpCode { len: 3, cycles: 4, mode: AddressingMode::Absolute_X },
        0xfd => OpCode { len: 3, cycles: 4, mode: AddressingMode::Absolute_X },
        0xfe => OpCode { len: 3, cycles: 7, mode: AddressingMode::Absolute_X },
        _ => OpCode { len: 3, cycles: 7, mode: AddressingMode::Absolute_X },    }
}

/// The printed mnemonic of each opcode.
#[verifier::opaque]
pub open spec fn spec_mnemonic(code: u8) -> Seq<char> {
    match code {
        0x00 => seq!['B', 'R', 'K'],
        0x01 => seq!['O', 'R', 'A'],
        0x02 => seq!['*', 'N', 'O', 'P'],
        0x03 => seq!['*', 'S', 'L', 'O'],
        0x04 => seq!['*', 'N', 'O', 'P'],
        0x05 => seq!['O', 'R', 'A'],
        0x06 => seq!['A', 'S', 'L'],
        0x07 => seq!['*', 'S', 'L', 'O'],
        0x08 => seq!['P', 'H', 'P'],
        0x09 => seq!['O', 'R', 'A'],
        0x0a => seq!['A', 'S', 'L'],
        0x0b => seq!['*', 'A', 'N', 'C'],
        0x0c => seq!['*', 'N', 'O', 'P'],
        0x0d => seq!['O', 'R', 'A'],
        0x0e => seq!['A', 'S', 'L'],
        0x0f => seq!['*', 'S', 'L', 'O'],
        0x10 => seq!['B', 'P', 'L'],
        0x11 => seq!['O', 'R', 'A'],
        0x12 => seq!['*', 'N', 'O', 'P'],
        0x13 => seq!['*', 'S', 'L', 'O'],
        0x14 => seq!['*', 'N', 'O', 'P'],
        0x15 => seq!['O', 'R', 'A'],
        0x16 => seq!['A', 'S', 'L'],
        0x17 => seq!['*', 'S', 'L', 'O'],
        0x18 => seq!['C', 'L', 'C'],
        0x19 => seq!['O', 'R', 'A'],
        0x1a => seq!['*', 'N', 'O', 'P'],
        0x1b => seq!['*', 'S', 'L', 'O'],
        0x1c => seq!['*', 'N', 'O', 'P'],
        0x1d => seq!['O', 'R', 'A'],
        0x1e => seq!['A', 'S', 'L'],
        0x1f => seq!['*', 'S', 'L', 'O'],
        0x20 => seq!['J', 'S', 'R'],
        0x21 => seq!['A', 'N', 'D'],
        0x22 => seq!['*', 'N', 'O', 'P'],
        0x23 => seq!['*', 'R', 'L', 'A'],
        0x24 => seq!['B', 'I', 'T'],
        0x25 => seq!['A', 'N', 'D'],
        0x26 => seq!['R', 'O', 'L'],
        0x27 => seq!['*', 'R', 'L', 'A'],
        0x28 => seq!['P', 'L', 'P'],
        0x29 => seq!['A', 'N', 'D'],
        0x2a => seq!['R', 'O', 'L'],
        0x2b => seq!['*', 'A', 'N', 'C'],
        0x2c => seq!['B', 'I', 'T'],
        0x2d => seq!['A', 'N', 'D'],
        0x2e => seq!['R', 'O', 'L'],
        0x2f => seq!['*', 'R', 'L', 'A'],
        0x30 => seq!['B', 'M', 'I'],
        0x31 => seq!['A', 'N', 'D'],
        0x32 => seq!['*', 'N', 'O', 'P'],
        0x33 => seq!['*', 'R', 'L', 'A'],
        0x34 => seq!['*', 'N', 'O', 'P'],
        0x35 => seq!['A', 'N', 'D'],
        0x36 => seq!['R', 'O', 'L'],
        0x37 => seq!['*', 'R', 'L', 'A'],
        0x38 => seq!['S', 'E', 'C'],
        0x39 => seq!['A', 'N', 'D'],
        0x3a => seq!['*', 'N', 'O', 'P'],
        0x3b => seq!['*', 'R', 'L', 'A'],
        0x3c => seq!['*', 'N', 'O', 'P'],
        0x3d => seq!['A', 'N', 'D'],
        0x3e => seq!['R', 'O', 'L'],
        0x3f => seq!['*', 'R', 'L', 'A'],
        0x40 => seq!['R', 'T', 'I'],
        0x41 => seq!['E', 'O', 'R'],
        0x42 => seq!['*', 'N', 'O', 'P'],
        0x43 => seq!['*', 'S', 'R', 'E'],
        0x44 => seq!['*', 'N', 'O', 'P'],
        0x45 => seq!['E', 'O', 'R'],
        0x46 => seq!['L', 'S', 'R'],
        0x47 => seq!['*', 'S', 'R', 'E'],
        0x48 => seq!['P', 'H', 'A'],
        0x49 => seq!['E', 'O', 'R'],
        0x4a => seq!['L', 'S', 'R'],
        0x4b => seq!['*', 'A', 'L', 'R'],
        0x4c => seq!['J', 'M', 'P'],
        0x4d => seq!['E', 'O', 'R'],
        0x4e => seq!['L', 'S', 'R'],
        0x4f => seq!['*', 'S', 'R', 'E'],
        0x50 => seq!['B', 'V', 'C'],
        0x51 => seq!['E', 'O', 'R'],
        0x52 => seq!['*', 'N', 'O', 'P'],
        0x53 => seq!['*', 'S', 'R', 'E'],
        0x54 => seq!['*', 'N', 'O', 'P'],
        0x55 => seq!['E', 'O', 'R'],
        0x56 => seq!['L', 'S', 'R'],
        0x57 => seq!['*', 'S', 'R', 'E'],
        0x58 => seq!['C', 'L', 'I'],
        0x59 => seq!['E', 'O', 'R'],
        0x5a => seq!['*', 'N', 'O', 'P'],
        0x5b => seq!['*', 'S', 'R', 'E'],
        0x5c => seq!['*', 'N', 'O', 'P'],
        0x5d => seq!['E', 'O', 'R'],
        0x5e => seq!['L', 'S', 'R'],
        0x5f => seq!['*', 'S', 'R', 'E'],
        0x60 => seq!['R', 'T', 'S'],
        0x61 => seq!['A', 'D', 'C'],
        0x62 => seq!['*', 'N', 'O', 'P'],
        0x63 => seq!['*', 'R', 'R', 'A'],
        0x64 => seq!['*', 'N', 'O', 'P'],
        0x65 => seq!['A', 'D', 'C'],
        0x66 => seq!['R', 'O', 'R'],
        0x67 => seq!['*', 'R', 'R', 'A'],
        0x68 => seq!['P', 'L', 'A'],
        0x69 => seq!['A', 'D', 'C'],
        0x6a => seq!['R', 'O', 'R'],
        0x6b => seq!['*', 'A', 'R', 'R'],
        0x6c => seq!['J', 'M', 'P'],
        0x6d => seq!['A', 'D', 'C'],
        0x6e => seq!['R', 'O', 'R'],
        0x6f => seq!['*', 'R', 'R', 'A'],
        0x70 => seq!['B', 'V', 'S'],
        0x71 => seq!['A', 'D', 'C'],
        0x72 => seq!['*', 'N', 'O', 'P'],
        0x73 => seq!['*', 'R', 'R', 'A'],
        0x74 => seq!['*', 'N', 'O', 'P'],
        0x75 => seq!['A', 'D', 'C'],
        0x76 => seq!['R', 'O', 'R'],
        0x77 => seq!['*', 'R', 'R', 'A'],
        0x78 => seq!['S', 'E', 'I'],
        0x79 => seq!['A', 'D', 'C'],
        0x7a => seq!['*', 'N', 'O', 'P'],
        0x7b => seq!['*', 'R', 'R', 'A'],
        0x7c => seq!['*', 'N', 'O', 'P'],
        0x7d => seq!['A', 'D', 'C'],
        0x7e => seq!['R', 'O', 'R'],
        0x7f => seq!['*', 'R', 'R', 'A'],
        0x80 => seq!['*', 'N', 'O', 'P'],
        0x81 => seq!['S', 'T', 'A'],
        0x82 => seq!['*', 'N', 'O', 'P'],
        0x83 => seq!['*', 'S', 'A', 'X'],
        0x84 => seq!['S', 'T', 'Y'],
        0x85 => seq!['S', 'T', 'A'],
        0x86 => seq!['S', 'T', 'X'],
        0x87 => seq!['*', 'S', 'A', 'X'],
        0x88 => seq!['D', 'E', 'Y'],
        0x89 => seq!['*', 'N', 'O', 'P'],
        0x8a => seq!['T', 'X', 'A'],
        0x8b => seq!['*', 'X', 'A', 'A'],
        0x8c => seq!['S', 'T', 'Y'],
        0x8d => seq!['S', 'T', 'A'],
        0x8e => seq!['S', 'T', 'X'],
        0x8f => seq!['*', 'S', 'A', 'X'],
        0x90 => seq!['B', 'C', 'C'],
        0x91 => seq!['S', 'T', 'A'],
        0x92 => seq!['*', 'N', 'O', 'P'],
        0x93 => seq!['*', 'A', 'H', 'X'],
        0x94 => seq!['S', 'T', 'Y'],
        0x95 => seq!['S', 'T', 'A'],
        0x96 => seq!['S', 'T', 'X'],
        0x97 => seq!['*', 'S', 'A', 'X'],
        0x98 => seq!['T', 'Y', 'A'],
        0x99 => seq!['S', 'T', 'A'],
        0x9a => seq!['T', 'X', 'S'],
        0x9b => seq!['*', 'T', 'A', 'S'],
        0x9c => seq!['*', 'S', 'H', 'Y'],
        0x9d => seq!['S', 'T', 'A'],
        0x9e => seq!['*', 'S', 'H', 'X'],
        0x9f => seq!['*', 'A', 'H', 'X'],
        0xa0 => seq!['L', 'D', 'Y'],
        0xa1 => seq!['L', 'D', 'A'],
        0xa2 => seq!['L', 'D', 'X'],
        0xa3 => seq!['*', 'L', 'A', 'X'],
        0xa4 => seq!['L', 'D', 'Y'],
        0xa5 => seq!['L', 'D', 'A'],
        0xa6 => seq!['L', 'D', 'X'],
        0xa7 => seq!['*', 'L', 'A', 'X'],
        0xa8 => seq!['T', 'A', 'Y'],
        0xa9 => seq!['L', 'D', 'A'],
        0xaa => seq!['T', 'A', 'X'],
        0xab => seq!['*', 'L', 'X', 'A'],
        0xac => seq!['L', 'D', 'Y'],
        0xad => seq!['L', 'D', 'A'],
        0xae => seq!['L', 'D', 'X'],
        0xaf => seq!['*', 'L', 'A', 'X'],
        0xb0 => seq!['B', 'C', 'S'],
        0xb1 => seq!['L', 'D', 'A'],
        0xb2 => seq!['*', 'N', 'O', 'P'],
        0xb3 => seq!['*', 'L', 'A', 'X'],
        0xb4 => seq!['L', 'D', 'Y'],
        0xb5 => seq!['L', 'D', 'A'],
        0xb6 => seq!['L', 'D', 'X'],
        0xb7 => seq!['*', 'L', 'A', 'X'],
        0xb8 => seq!['C', 'L', 'V'],
        0xb9 => seq!['L', 'D', 'A'],
        0xba => seq!['T', 'S', 'X'],
        0xbb => seq!['*', 'L', 'A', 'S'],
        0xbc => seq!['L', 'D', 'Y'],
        0xbd => seq!['L', 'D', 'A'],
        0xbe => seq!['L', 'D', 'X'],
        0xbf => seq!['*', 'L', 'A', 'X'],
        0xc0 => seq!['C', 'P', 'Y'],
        0xc1 => seq!['C', 'M', 'P'],
        0xc2 => seq!['*', 'N', 'O', 'P'],
        0xc3 => seq!['*', 'D', 'C', 'P'],
        0xc4 => seq!['C', 'P', 'Y'],
        0xc5 => seq!['C', 'M', 'P'],
        0xc6 => seq!['D', 'E', 'C'],
        0xc7 => seq!['*', 'D', 'C', 'P'],
        0xc8 => seq!['I', 'N', 'Y'],
        0xc9 => seq!['C', 'M', 'P'],
        0xca => seq!['D', 'E', 'X'],
        0xcb => seq!['*', 'A', 'X', 'S'],
        0xcc => seq!['C', 'P', 'Y'],
        0xcd => seq!['C', 'M', 'P'],
        0xce => seq!['D', 'E', 'C'],
        0xcf => seq!['*', 'D', 'C', 'P'],
        0xd0 => seq!['B', 'N', 'E'],
        0xd1 => seq!['C', 'M', 'P'],
        0xd2 => seq!['*', 'N', 'O', 'P'],
        0xd3 => seq!['*', 'D', 'C', 'P'],
        0xd4 => seq!['*', 'N', 'O', 'P'],
        0xd5 => seq!['C', 'M', 'P'],
        0xd6 => seq!['D', 'E', 'C'],
        0xd7 => seq!['*', 'D', 'C', 'P'],
        0xd8 => seq!['C', 'L', 'D'],
        0xd9 => seq!['C', 'M', 'P'],
        0xda => seq!['*', 'N', 'O', 'P'],
        0xdb => seq!['*', 'D', 'C', 'P'],
        0xdc => seq!['*', 'N', 'O', 'P'],
        0xdd => seq!['C', 'M', 'P'],
        0xde => seq!['D', 'E', 'C'],
        0xdf => seq!['*', 'D', 'C', 'P'],
        0xe0 => seq!['C', 'P', 'X'],
        0xe1 => seq!['S', 'B', 'C'],
        0xe2 => seq!['*', 'N', 'O', 'P'],
        0xe3 => seq!['*', 'I', 'S', 'B'],
        0xe4 => seq!['C', 'P', 'X'],
        0xe5 => seq!['S', 'B', 'C'],
        0xe6 => seq!['I', 'N', 'C'],
        0xe7 => seq!['*', 'I', 'S', 'B'],
        0xe8 => seq!['I', 'N', 'X'],
        0xe9 => seq!['S', 'B', 'C'],
        0xea => seq!['N', 'O', 'P'],
        0xeb => seq!['*', 'S', 'B', 'C'],
        0xec => seq!['C', 'P', 'X'],
        0xed => seq!['S', 'B', 'C'],
        0xee => seq!['I', 'N', 'C'],
        0xef => seq!['*', 'I', 'S', 'B'],
        0xf0 => seq!['B', 'E', 'Q'],
        0xf1 => seq!['S', 'B', 'C'],
        0xf2 => seq!['*', 'N', 'O', 'P'],
        0xf3 => seq!['*', 'I', 'S', 'B'],
        0xf4 => seq!['*', 'N', 'O', 'P'],
        0xf5 => seq!['S', 'B', 'C'],
        0xf6 => seq!['I', 'N', 'C'],
        0xf7 => seq!['*', 'I', 'S', 'B'],
        0xf8 => seq!['S', 'E', 'D'],
        0xf9 => seq!['S', 'B', 'C'],
        0xfa => seq!['*', 'N', 'O', 'P'],
        0xfb => seq!['*', 'I', 'S', 'B'],
        0xfc => seq!['*', 'N', 'O', 'P'],
        0xfd => seq!['S', 'B', 'C'],
        0xfe => seq!['I', 'N', 'C'],
        _ => seq!['*', 'I', 'S', 'B'],    }
}

/// Appends three characters.
fn push3(out: &mut Vec<char>, a: char, b: char, c: char)
    ensures
        final(out)@ == old(out)@ + seq![a, b, c],
{
    out.push(a);
    out.push(b);
    out.push(c);
    proof {
        assert(out@ =~= old(out)@ + seq![a, b, c]);
    }
}

/// Appends four characters.
fn push4(out: &mut Vec<char>, a: char, b: char, c: char, d: char)
    ensures
        final(out)@ == old(out)@ + seq![a, b, c, d],
{
    out.push(a);
    out.push(b);
    out.push(c);
    out.push(d);
    proof {
        assert(out@ =~= old(out)@ + seq![a, b, c, d]);
    }
}

/// Appends the mnemonic of an opcode.
#[verifier::rlimit(100)]
pub fn push_mnemonic(out: &mut Vec<char>, code: u8)
    ensures
        final(out)@ == old(out)@ + spec_mnemonic(code),
        final(out)@.len() == old(out)@.len() + spec_mnemonic(code).len(),
{
    proof {
        reveal(spec_mnemonic);
    }
    match code {
        0x00 => push3(out, 'B', 'R', 'K'),
        0x01 => push3(out, 'O', 'R', 'A'),
        0x02 => push4(out, '*', 'N', 'O', 'P'),
        0x03 => push4(out, '*', 'S', 'L', 'O'),
        0x04 => push4(out, '*', 'N', 'O', 'P'),
        0x05 => push3(out, 'O', 'R', 'A'),
        0x06 => push3(out, 'A', 'S', 'L'),
        0x07 => push4(out, '*', 'S', 'L', 'O'),
        0x08 => push3(out, 'P', 'H', 'P'),
        0x09 => push3(out, 'O', 'R', 'A'),
        0x0a => push3(out, 'A', 'S', 'L'),
        0x0b => push4(out, '*', 'A', 'N', 'C'),
        0x0c => push4(out, '*', 'N', 'O', 'P'),
        0x0d => push3(out, 'O', 'R', 'A'),
        0x0e => push3(out, 'A', 'S', 'L'),
        0x0f => push4(out, '*', 'S', 'L', 'O'),
        0x10 => push3(out, 'B', 'P', 'L'),
        0x11 => push3(out, 'O', 'R', 'A'),
        0x12 => push4(out, '*', 'N', 'O', 'P'),
        0x13 => push4(out, '*', 'S', 'L', 'O'),
        0x14 => push4(out, '*', 'N', 'O', 'P'),
        0x15 => push3(out, 'O', 'R', 'A'),
        0x16 => push3(out, 'A', 'S', 'L'),
        0x17 => push4(out, '*', 'S', 'L', 'O'),
        0x18 => push3(out, 'C', 'L', 'C'),
        0x19 => push3(out, 'O', 'R', 'A'),
        0x1a => push4(out, '*', 'N', 'O', 'P'),
        0x1b => push4(out, '*', 'S', 'L', 'O'),
        0x1c => push4(out, '*', 'N', 'O', 'P'),
        0x1d => push3(out, 'O', 'R', 'A'),
        0x1e => push3(out, 'A', 'S', 'L'),
        0x1f => push4(out, '*', 'S', 'L', 'O'),
        0x20 => push3(out, 'J', 'S', 'R'),
        0x21 => push3(out, 'A', 'N', 'D'),
        0x22 => push4(out, '*', 'N', 'O', 'P'),
        0x23 => push4(out, '*', 'R', 'L', 'A'),
        0x24 => push3(out, 'B', 'I', 'T'),
        0x25 => push3(out, 'A', 'N', 'D'),
        0x26 => push3(out, 'R', 'O', 'L'),
        0x27 => push4(out, '*', 'R', 'L', 'A'),
        0x28 => push3(out, 'P', 'L', 'P'),
        0x29 => push3(out, 'A', 'N', 'D'),
        0x2a => push3(out, 'R', 'O', 'L'),
        0x2b => push4(out, '*', 'A', 'N', 'C'),
        0x2c => push3(out, 'B', 'I', 'T'),
        0x2d => push3(out, 'A', 'N', 'D'),
        0x2e => push3(out, 'R', 'O', 'L'),
        0x2f => push4(out, '*', 'R', 'L', 'A'),
        0x30 => push3(out, 'B', 'M', 'I'),
        0x31 => push3(out, 'A', 'N', 'D'),
        0x32 => push4(out, '*', 'N', 'O', 'P'),
        0x33 => push4(out, '*', 'R', 'L', 'A'),
        0x34 => push4(out, '*', 'N', 'O', 'P'),
        0x35 => push3(out, 'A', 'N', 'D'),
        0x36 => push3(out, 'R', 'O', 'L'),
        0x37 => push4(out, '*', 'R', 'L', 'A'),
        0x38 => push3(out, 'S', 'E', 'C'),
        0x39 => push3(out, 'A', 'N', 'D'),
        0x3a => push4(out, '*', 'N', 'O', 'P'),
        0x3b => push4(out, '*', 'R', 'L', 'A'),
        0x3c => push4(out, '*', 'N', 'O', 'P'),
        0x3d => push3(out, 'A', 'N', 'D'),
        0x3e => push3(out, 'R', 'O', 'L'),
        0x3f => push4(out, '*', 'R', 'L', 'A'),
        0x40 => push3(out, 'R', 'T', 'I'),
        0x41 => push3(out, 'E', 'O', 'R'),
        0x42 => push4(out, '*', 'N', 'O', 'P'),
        0x43 => push4(out, '*', 'S', 'R', 'E'),
        0x44 => push4(out, '*', 'N', 'O', 'P'),
        0x45 => push3(out, 'E', 'O', 'R'),
        0x46 => push3(out, 'L', 'S', 'R'),
        0x47 => push4(out, '*', 'S', 'R', 'E'),
        0x48 => push3(out, 'P', 'H', 'A'),
        0x49 => push3(out, 'E', 'O', 'R'),
        0x4a => push3(out, 'L', 'S', 'R'),
        0x4b => push4(out, '*', 'A', 'L', 'R'),
        0x4c => push3(out, 'J', 'M', 'P'),
        0x4d => push3(out, 'E', 'O', 'R'),
        0x4e => push3(out, 'L', 'S', 'R'),
        0x4f => push4(out, '*', 'S', 'R', 'E'),
        0x50 => push3(out, 'B', 'V', 'C'),
        0x51 => push3(out, 'E', 'O', 'R'),
        0x52 => push4(out, '*', 'N', 'O', 'P'),
        0x53 => push4(out, '*', 'S', 'R', 'E'),
        0x54 => push4(out, '*', 'N', 'O', 'P'),
        0x55 => push3(out, 'E', 'O', 'R'),
        0x56 => push3(out, 'L', 'S', 'R'),
        0x57 => push4(out, '*', 'S', 'R', 'E'),
        0x58 => push3(out, 'C', 'L', 'I'),
        0x59 => push3(out, 'E', 'O', 'R'),
        0x5a => push4(out, '*', 'N', 'O', 'P'),
        0x5b => push4(out, '*', 'S', 'R', 'E'),
        0x5c => push4(out, '*', 'N', 'O', 'P'),
        0x5d => push3(out, 'E', 'O', 'R'),
        0x5e => push3(out, 'L', 'S', 'R'),
        0x5f => push4(out, '*', 'S', 'R', 'E'),
        0x60 => push3(out, 'R', 'T', 'S'),
        0x61 => push3(out, 'A', 'D', 'C'),
        0x62 => push4(out, '*', 'N', 'O', 'P'),
        0x63 => push4(out, '*', 'R', 'R', 'A'),
        0x64 => push4(out, '*', 'N', 'O', 'P'),
        0x65 => push3(out, 'A', 'D', 'C'),
        0x66 => push3(out, 'R', 'O', 'R'),
        0x67 => push4(out, '*', 'R', 'R', 'A'),
        0x68 => push3(out, 'P', 'L', 'A'),
        0x69 => push3(out, 'A', 'D', 'C'),
        0x6a => push3(out, 'R', 'O', 'R'),
        0x6b => push4(out, '*', 'A', 'R', 'R'),
        0x6c => push3(out, 'J', 'M', 'P'),
        0x6d => push3(out, 'A', 'D', 'C'),
        0x6e => push3(out, 'R', 'O', 'R'),
        0x6f => push4(out, '*', 'R', 'R', 'A'),
        0x70 => push3(out, 'B', 'V', 'S'),
        0x71 => push3(out, 'A', 'D', 'C'),
        0x72 => push4(out, '*', 'N', 'O', 'P'),
        0x73 => push4(out, '*', 'R', 'R', 'A'),
        0x74 => push4(out, '*', 'N', 'O', 'P'),
        0x75 => push3(out, 'A', 'D', 'C'),
        0x76 => push3(out, 'R', 'O', 'R'),
        0x77 => push4(out, '*', 'R', 'R', 'A'),
        0x78 => push3(out, 'S', 'E', 'I'),
        0x79 => push3(out, 'A', 'D', 'C'),
        0x7a => push4(out, '*', 'N', 'O', 'P'),
        0x7b => push4(out, '*', 'R', 'R', 'A'),
        0x7c => push4(out, '*', 'N', 'O', 'P'),
        0x7d => push3(out, 'A', 'D', 'C'),
        0x7e => push3(out, 'R', 'O', 'R'),
        0x7f => push4(out, '*', 'R', 'R', 'A'),
        0x80 => push4(out, '*', 'N', 'O', 'P'),
        0x81 => push3(out, 'S', 'T', 'A'),
        0x82 => push4(out, '*', 'N', 'O', 'P'),
        0x83 => push4(out, '*', 'S', 'A', 'X'),
        0x84 => push3(out, 'S', 'T', 'Y'),
        0x85 => push3(out, 'S', 'T', 'A'),
        0x86 => push3(out, 'S', 'T', 'X'),
        0x87 => push4(out, '*', 'S', 'A', 'X'),
        0x88 => push3(out, 'D', 'E', 'Y'),
        0x89 => push4(out, '*', 'N', 'O', 'P'),
        0x8a => push3(out, 'T', 'X', 'A'),
        0x8b => push4(out, '*', 'X', 'A', 'A'),
        0x8c => push3(out, 'S', 'T', 'Y'),
        0x8d => push3(out, 'S', 'T', 'A'),
        0x8e => push3(out, 'S', 'T', 'X'),
        0x8f => push4(out, '*', 'S', 'A', 'X'),
        0x90 => push3(out, 'B', 'C', 'C'),
        0x91 => push3(out, 'S', 'T', 'A'),
        0x92 => push4(out, '*', 'N', 'O', 'P'),
        0x93 => push4(out, '*', 'A', 'H', 'X'),
        0x94 => push3(out, 'S', 'T', 'Y'),
        0x95 => push3(out, 'S', 'T', 'A'),
        0x96 => push3(out, 'S', 'T', 'X'),
        0x97 => push4(out, '*', 'S', 'A', 'X'),
        0x98 => push3(out, 'T', 'Y', 'A'),
        0x99 => push3(out, 'S', 'T', 'A'),
        0x9a => push3(out, 'T', 'X', 'S'),
        0x9b => push4(out, '*', 'T', 'A', 'S'),
        0x9c => push4(out, '*', 'S', 'H', 'Y'),
        0x9d => push3(out, 'S', 'T', 'A'),
        0x9e => push4(out, '*', 'S', 'H', 'X'),
        0x9f => push4(out, '*', 'A', 'H', 'X'),
        0xa0 => push3(out, 'L', 'D', 'Y'),
        0xa1 => push3(out, 'L', 'D', 'A'),
        0xa2 => push3(out, 'L', 'D', 'X'),
        0xa3 => push4(out, '*', 'L', 'A', 'X'),
        0xa4 => push3(out, 'L', 'D', 'Y'),
        0xa5 => push3(out, 'L', 'D', 'A'),
        0xa6 => push3(out, 'L', 'D', 'X'),
        0xa7 => push4(out, '*', 'L', 'A', 'X'),
        0xa8 => push3(out, 'T', 'A', 'Y'),
        0xa9 => push3(out, 'L', 'D', 'A'),
        0xaa => push3(out, 'T', 'A', 'X'),
        0xab => push4(out, '*', 'L', 'X', 'A'),
        0xac => push3(out, 'L', 'D', 'Y'),
        0xad => push3(out, 'L', 'D', 'A'),
        0xae => push3(out, 'L', 'D', 'X'),
        0xaf => push4(out, '*', 'L', 'A', 'X'),
        0xb0 => push3(out, 'B', 'C', 'S'),
        0xb1 => push3(out, 'L', 'D', 'A'),
        0xb2 => push4(out, '*', 'N', 'O', 'P'),
        0xb3 => push4(out, '*', 'L', 'A', 'X'),
        0xb4 => push3(out, 'L', 'D', 'Y'),
        0xb5 => push3(out, 'L', 'D', 'A'),
        0xb6 => push3(out, 'L', 'D', 'X'),
        0xb7 => push4(out, '*', 'L', 'A', 'X'),
        0xb8 => push3(out, 'C', 'L', 'V'),
        0xb9 => push3(out, 'L', 'D', 'A'),
        0xba => push3(out, 'T', 'S', 'X'),
        0xbb => push4(out, '*', 'L', 'A', 'S'),
        0xbc => push3(out, 'L', 'D', 'Y'),
        0xbd => push3(out, 'L', 'D', 'A'),
        0xbe => push3(out, 'L', 'D', 'X'),
        0xbf => push4(out, '*', 'L', 'A', 'X'),
        0xc0 => push3(out, 'C', 'P', 'Y'),
        0xc1 => push3(out, 'C', 'M', 'P'),
        0xc2 => push4(out, '*', 'N', 'O', 'P'),
        0xc3 => push4(out, '*', 'D', 'C', 'P'),
        0xc4 => push3(out, 'C', 'P', 'Y'),
        0xc5 => push3(out, 'C', 'M', 'P'),
        0xc6 => push3(out, 'D', 'E', 'C'),
        0xc7 => push4(out, '*', 'D', 'C', 'P'),
        0xc8 => push3(out, 'I', 'N', 'Y'),
        0xc9 => push3(out, 'C', 'M', 'P'),
        0xca => push3(out, 'D', 'E', 'X'),
        0xcb => push4(out, '*', 'A', 'X', 'S'),
        0xcc => push3(out, 'C', 'P', 'Y'),
        0xcd => push3(out, 'C', 'M', 'P'),
        0xce => push3(out, 'D', 'E', 'C'),
        0xcf => push4(out, '*', 'D', 'C', 'P'),
        0xd0 => push3(out, 'B', 'N', 'E'),
        0xd1 => push3(out, 'C', 'M', 'P'),
        0xd2 => push4(out, '*', 'N', 'O', 'P'),
        0xd3 => push4(out, '*', 'D', 'C', 'P'),
        0xd4 => push4(out, '*', 'N', 'O', 'P'),
        0xd5 => push3(out, 'C', 'M', 'P'),
        0xd6 => push3(out, 'D', 'E', 'C'),
        0xd7 => push4(out, '*', 'D', 'C', 'P'),
        0xd8 => push3(out, 'C', 'L', 'D'),
        0xd9 => push3(out, 'C', 'M', 'P'),
        0xda => push4(out, '*', 'N', 'O', 'P'),
        0xdb => push4(out, '*', 'D', 'C', 'P'),
        0xdc => push4(out, '*', 'N', 'O', 'P'),
        0xdd => push3(out, 'C', 'M', 'P'),
        0xde => push3(out, 'D', 'E', 'C'),
        0xdf => push4(out, '*', 'D', 'C', 'P'),
        0xe0 => push3(out, 'C', 'P', 'X'),
        0xe1 => push3(out, 'S', 'B', 'C'),
        0xe2 => push4(out, '*', 'N', 'O', 'P'),
        0xe3 => push4(out, '*', 'I', 'S', 'B'),
        0xe4 => push3(out, 'C', 'P', 'X'),
        0xe5 => push3(out, 'S', 'B', 'C'),
        0xe6 => push3(out, 'I', 'N', 'C'),
        0xe7 => push4(out, '*', 'I', 'S', 'B'),
        0xe8 => push3(out, 'I', 'N', 'X'),
        0xe9 => push3(out, 'S', 'B', 'C'),
        0xea => push3(out, 'N', 'O', 'P'),
        0xeb => push4(out, '*', 'S', 'B', 'C'),
        0xec => push3(out, 'C', 'P', 'X'),
        0xed => push3(out, 'S', 'B', 'C'),
        0xee => push3(out, 'I', 'N', 'C'),
        0xef => push4(out, '*', 'I', 'S', 'B'),
        0xf0 => push3(out, 'B', 'E', 'Q'),
        0xf1 => push3(out, 'S', 'B', 'C'),
        0xf2 => push4(out, '*', 'N', 'O', 'P'),
        0xf3 => push4(out, '*', 'I', 'S', 'B'),
        0xf4 => push4(out, '*', 'N', 'O', 'P'),
        0xf5 => push3(out, 'S', 'B', 'C'),
        0xf6 => push3(out, 'I', 'N', 'C'),
        0xf7 => push4(out, '*', 'I', 'S', 'B'),
        0xf8 => push3(out, 'S', 'E', 'D'),
        0xf9 => push3(out, 'S', 'B', 'C'),
        0xfa => push4(out, '*', 'N', 'O', 'P'),
        0xfb => push4(out, '*', 'I', 'S', 'B'),
        0xfc => push4(out, '*', 'N', 'O', 'P'),
        0xfd => push3(out, 'S', 'B', 'C'),
        0xfe => push3(out, 'I', 'N', 'C'),
        _ => push4(out, '*', 'I', 'S', 'B'),    }
}

} // verus!
