use apur::error::APURRendererError;

#[test]
fn error_names_are_the_variant_names() {
    assert_eq!(APURRendererError::BufferDataSizeMismatch.name(), "BufferDataSizeMismatch");
    assert_eq!(
        APURRendererError::BufferTypeInterpretationFailed.name(),
        "BufferTypeInterpretationFailed"
    );
    assert_eq!(APURRendererError::BufferUsageNotMapRead.name(), "BufferUsageNotMapRead");
    assert_eq!(APURRendererError::BufferUsageNotCopyDst.name(), "BufferUsageNotCopyDst");
    assert_eq!(
        APURRendererError::BindingResourceTypeUnmatched.name(),
        "BindingResourceTypeUnmatched"
    );
    assert_eq!(APURRendererError::NumOfBindingsOverflowed.name(), "NumOfBindingsOverflowed");
    assert_eq!(APURRendererError::NumOfBindingsUnderflowed.name(), "NumOfBindingsUnderflowed");
    assert_eq!(APURRendererError::ErrorOpeningShaderSPV.name(), "ErrorOpeningShaderSPV");
    assert_eq!(APURRendererError::ErrorLoadingTextureImage.name(), "ErrorLoadingTextureImage");
}

#[test]
fn error_debug_is_the_variant_name() {
    assert_eq!(
        format!("{:?}", APURRendererError::NumOfBindingsOverflowed),
        APURRendererError::NumOfBindingsOverflowed.name()
    );
}
