//! Errors reported by the renderer's resource layer.
//!
//! Every error is a plain value that is handed back to the caller of the
//! operation that failed; nothing in this crate aborts the process.

use vstd::prelude::*;

verus! {

/// Why an operation on a GPU resource description was refused.
#[derive(Debug, Clone, Copy, PartialEq, Eq, Structural)]
pub enum APURRendererError {
    /// A write does not fit into the buffer at the given offset.
    BufferDataSizeMismatch,
    /// Mapped bytes cannot be read as a whole number of elements.
    BufferTypeInterpretationFailed,
    /// The buffer was not created with the capability to be mapped for reading.
    BufferUsageNotMapRead,
    /// The buffer was not created with the capability to be a copy destination.
    BufferUsageNotCopyDst,
    /// The resource offered does not have the kind that the next slot declares.
    BindingResourceTypeUnmatched,
    /// Every slot of the layout is filled already.
    NumOfBindingsOverflowed,
    /// Fewer resources were bound than the layout declares.
    NumOfBindingsUnderflowed,
    /// A shader stage could not be read or is not a SPIR-V module.
    ErrorOpeningShaderSPV,
    /// A texture image could not be read or decoded.
    ErrorLoadingTextureImage,
}

impl APURRendererError {
    /// The variant's name, for messages.
    pub fn name(&self) -> (s: &'static str)
        ensures
            s@ == self.spec_name(),
    {
        match self {
            APURRendererError::BufferDataSizeMismatch => "BufferDataSizeMismatch",
            APURRendererError::BufferTypeInterpretationFailed => "BufferTypeInterpretationFailed",
            APURRendererError::BufferUsageNotMapRead => "BufferUsageNotMapRead",
            APURRendererError::BufferUsageNotCopyDst => "BufferUsageNotCopyDst",
            APURRendererError::BindingResourceTypeUnmatched => "BindingResourceTypeUnmatched",
            APURRendererError::NumOfBindingsOverflowed => "NumOfBindingsOverflowed",
            APURRendererError::NumOfBindingsUnderflowed => "NumOfBindingsUnderflowed",
            APURRendererError::ErrorOpeningShaderSPV => "ErrorOpeningShaderSPV",
            APURRendererError::ErrorLoadingTextureImage => "ErrorLoadingTextureImage",
        }
    }

    /// The name of each variant as a sequence of characters.
    pub open spec fn spec_name(&self) -> Seq<char> {
        match self {
            APURRendererError::BufferDataSizeMismatch => "BufferDataSizeMismatch"@,
            APURRendererError::BufferTypeInterpretationFailed => "BufferTypeInterpretationFailed"@,
            APURRendererError::BufferUsageNotMapRead => "BufferUsageNotMapRead"@,
            APURRendererError::BufferUsageNotCopyDst => "BufferUsageNotCopyDst"@,
            APURRendererError::BindingResourceTypeUnmatched => "BindingResourceTypeUnmatched"@,
            APURRendererError::NumOfBindingsOverflowed => "NumOfBindingsOverflowed"@,
            APURRendererError::NumOfBindingsUnderflowed => "NumOfBindingsUnderflowed"@,
            APURRendererError::ErrorOpeningShaderSPV => "ErrorOpeningShaderSPV"@,
            APURRendererError::ErrorLoadingTextureImage => "ErrorLoadingTextureImage"@,
        }
    }
}

} // verus!
