//! The records that are exchanged with the native compiler, as plain values.
//!
//! A pointer of the native interface appears here as what it points to (a
//! borrowed slice) where the library hands data in, and as an address where
//! the native compiler hands a buffer out. The address zero is the null
//! pointer.

use vstd::prelude::*;

verus! {

/// The status that the native compiler returns; zero is success.
pub type HRESULT = i32;

/// The size in bytes of the native output record: three fields of eight
/// bytes each on the 64-bit platform that the compiler library is built for.
pub const COMPILE_OUTPUT_SIZE: u64 = 24;

/// The smallest buffer that can hold a compiled shader.
pub const MIN_SHADER_BINARY_SIZE: u64 = 16;

/// The 32 bits of `value`, read as an unsigned number.
pub open spec fn spec_unsigned_bits(value: i32) -> int {
    if value < 0 {
        value + 0x1_0000_0000
    } else {
        value as int
    }
}

/// Reads the 32 bits of `value` as an unsigned number.
pub fn unsigned_bits(value: i32) -> (bits: u32)
    ensures
        bits == spec_unsigned_bits(value),
{
    if value < 0 {
        let wide: i64 = value as i64;
        (wide + 0x1_0000_0000) as u32
    } else {
        value as u32
    }
}

/// What kind of shader source the native compiler is given.
#[derive(Debug, Clone, Copy, PartialEq, Eq, Structural)]
pub enum AmdDxGsaInputType {
    /// DirectX assembly in binary form.
    GsaInputDxAsmBin,
    /// Intermediate-language text.
    GsaInputIlText,
}

/// The key of a compile option, as the native compiler numbers them.
#[derive(Debug, Clone, Copy, PartialEq, Eq, Structural)]
pub struct AmdDxGsaCompileOptionEnum(pub i32);

/// One compile option: handed to the native compiler as it is.
#[derive(Debug, Clone, Copy, PartialEq, Eq, Structural)]
pub struct AmdDxGsaCompileOption {
    pub setting: AmdDxGsaCompileOptionEnum,
    pub value: i32,
}

/// The input record of the native compile routine.
pub struct AmdDxGsaCompileShaderInput<'a> {
    pub chip_family: u32,
    pub chip_revision: u32,
    pub shader_byte_code: &'a [u8],
    pub byte_code_length: u64,
    pub input_type: AmdDxGsaInputType,
    pub compile_options: &'a [AmdDxGsaCompileOption],
    pub num_compile_options: u32,
    pub reserved: [u32; 6],
}

/// The output record of the native compile routine.
#[derive(Debug, Clone, Copy, PartialEq, Eq, Structural)]
pub struct AmdDxGsaCompileShaderOutput {
    /// The size of this record, which the caller fills in.
    pub size: u64,
    /// The address of the compiled shader, zero where there is none.
    pub shader_binary: usize,
    /// The number of bytes at that address.
    pub shader_binary_size: u64,
}

} // verus!
