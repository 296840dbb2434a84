use sas_bridge::errors::{
    BridgeError, ErrorCode, SasArrowErrorCode, compose_message, static_message, status_from_u32,
    translate_status,
};

#[test]
fn status_codes_from_wire_values() {
    assert_eq!(status_from_u32(0), SasArrowErrorCode::SasArrowOk);
    assert_eq!(status_from_u32(1), SasArrowErrorCode::SasArrowErrorFileNotFound);
    assert_eq!(status_from_u32(2), SasArrowErrorCode::SasArrowErrorInvalidFile);
    assert_eq!(status_from_u32(3), SasArrowErrorCode::SasArrowErrorOutOfMemory);
    assert_eq!(status_from_u32(4), SasArrowErrorCode::SasArrowErrorArrowError);
    assert_eq!(status_from_u32(5), SasArrowErrorCode::SasArrowErrorEndOfData);
    assert_eq!(status_from_u32(6), SasArrowErrorCode::SasArrowErrorInvalidBatchIndex);
    assert_eq!(status_from_u32(7), SasArrowErrorCode::SasArrowErrorNullPointer);
    // Anything outside the closed enumeration is an internal engine fault.
    assert_eq!(status_from_u32(99), SasArrowErrorCode::SasArrowErrorArrowError);
}

#[test]
fn status_translation_into_the_taxonomy() {
    assert_eq!(translate_status(SasArrowErrorCode::SasArrowOk), None);
    assert_eq!(
        translate_status(SasArrowErrorCode::SasArrowErrorFileNotFound),
        Some(ErrorCode::FileNotFound)
    );
    assert_eq!(
        translate_status(SasArrowErrorCode::SasArrowErrorInvalidFile),
        Some(ErrorCode::InvalidFile)
    );
    assert_eq!(
        translate_status(SasArrowErrorCode::SasArrowErrorOutOfMemory),
        Some(ErrorCode::OutOfMemory)
    );
    assert_eq!(
        translate_status(SasArrowErrorCode::SasArrowErrorArrowError),
        Some(ErrorCode::InternalEngineError)
    );
    assert_eq!(
        translate_status(SasArrowErrorCode::SasArrowErrorEndOfData),
        Some(ErrorCode::EndOfData)
    );
    assert_eq!(
        translate_status(SasArrowErrorCode::SasArrowErrorInvalidBatchIndex),
        Some(ErrorCode::InvalidBatchIndex)
    );
    assert_eq!(
        translate_status(SasArrowErrorCode::SasArrowErrorNullPointer),
        Some(ErrorCode::NullPointer)
    );
}

#[test]
fn message_composition_keeps_all_detail() {
    assert_eq!(compose_message("File not found", ""), "File not found");
    assert_eq!(
        compose_message("File not found", "no such path"),
        "File not found: no such path"
    );
    let e = BridgeError::new(ErrorCode::OutOfMemory, "allocation of 4 GiB failed");
    assert_eq!(e.code, ErrorCode::OutOfMemory);
    assert_eq!(e.message, "Out of memory: allocation of 4 GiB failed");
    let bare = BridgeError::new(ErrorCode::NullPointer, "");
    assert_eq!(bare.message, "Null pointer");
}

#[test]
fn static_messages_cover_the_whole_taxonomy() {
    assert_eq!(static_message(ErrorCode::FileNotFound), "File not found");
    assert_eq!(static_message(ErrorCode::InvalidFile), "Invalid SAS file");
    assert_eq!(static_message(ErrorCode::OutOfMemory), "Out of memory");
    assert_eq!(static_message(ErrorCode::InternalEngineError), "Internal engine error");
    assert_eq!(static_message(ErrorCode::EndOfData), "End of data reached");
    assert_eq!(static_message(ErrorCode::InvalidBatchIndex), "Batch index out of range");
    assert_eq!(static_message(ErrorCode::NullPointer), "Null pointer");
    assert_eq!(static_message(ErrorCode::UnsupportedType), "Unsupported data type");
}
