//! Safe access to the AMD DirectX shader compiler: extraction of shader
//! bytecode from a DXBC container, and the decisions taken around one call
//! of the native compile routine.
#![allow(non_snake_case)]

use vstd::prelude::*;

pub mod amd_isa_devices;
pub mod dxbc;
pub mod gateway;
pub mod interop;

pub use gateway::Atidxx64;
pub use interop::AmdDxGsaCompileOption;
pub use interop::AmdDxGsaCompileOptionEnum;

verus! {

/// Source code for a shader.
///
/// Maps to the `AmdDxGsaInputType` C enum.
pub enum AmdDxGsaShaderSource<'a> {
    DxAsmBinary(&'a [u8]),
    IlText(&'a [u8]),
}

impl<'a> AmdDxGsaShaderSource<'a> {
    /// The input type that the native compiler is told.
    pub open spec fn input_type(&self) -> interop::AmdDxGsaInputType {
        match *self {
            Self::DxAsmBinary(_) => interop::AmdDxGsaInputType::GsaInputDxAsmBin,
            Self::IlText(_) => interop::AmdDxGsaInputType::GsaInputIlText,
        }
    }

    /// The bytes of the source.
    pub open spec fn bytes(&self) -> &'a [u8] {
        match *self {
            Self::DxAsmBinary(data) => data,
            Self::IlText(data) => data,
        }
    }

    /// The native input type of this source, and its bytes, still borrowed
    /// from the caller.
    pub fn to_interop(&self) -> (r: (interop::AmdDxGsaInputType, &'a [u8]))
        ensures
            r.0 == self.input_type(),
            r.1 == self.bytes(),
    {
        match self {
            Self::DxAsmBinary(data) => (interop::AmdDxGsaInputType::GsaInputDxAsmBin, *data),
            Self::IlText(data) => (interop::AmdDxGsaInputType::GsaInputIlText, *data),
        }
    }
}

/// Why the native compiler did not deliver a shader.
#[derive(Debug, Clone, Copy, PartialEq, Eq, Structural)]
pub enum ShaderCompileError {
    OperationAborted,
    AccessDenied,
    UnspecifiedFailure,
    InvalidArg,
    OutOfMemory,
    InvalidPointer,
    Other { result: interop::HRESULT },
}

impl ShaderCompileError {
    /// The error that a status of the native compiler stands for: six known
    /// codes have a name, every other status is kept as it came.
    pub open spec fn spec_from_status(result: interop::HRESULT) -> ShaderCompileError {
        let code = interop::spec_unsigned_bits(result);
        if code == 0x8000_4004 {
            ShaderCompileError::OperationAborted
        } else if code == 0x8007_0005 {
            ShaderCompileError::AccessDenied
        } else if code == 0x8000_4005 {
            ShaderCompileError::UnspecifiedFailure
        } else if code == 0x8007_0057 {
            ShaderCompileError::InvalidArg
        } else if code == 0x8000_4003 {
            ShaderCompileError::InvalidPointer
        } else if code == 0x8007_000E {
            ShaderCompileError::OutOfMemory
        } else {
            ShaderCompileError::Other { result }
        }
    }

    /// Maps a status of the native compiler to its error.
    pub fn from_status(result: interop::HRESULT) -> (e: ShaderCompileError)
        ensures
            e == Self::spec_from_status(result),
    {
        let code: u32 = interop::unsigned_bits(result);
        if code == 0x8000_4004 {
            ShaderCompileError::OperationAborted
        } else if code == 0x8007_0005 {
            ShaderCompileError::AccessDenied
        } else if code == 0x8000_4005 {
            ShaderCompileError::UnspecifiedFailure
        } else if code == 0x8007_0057 {
            ShaderCompileError::InvalidArg
        } else if code == 0x8000_4003 {
            ShaderCompileError::InvalidPointer
        } else if code == 0x8007_000E {
            ShaderCompileError::OutOfMemory
        } else {
            ShaderCompileError::Other { result }
        }
    }
}

} // verus!
