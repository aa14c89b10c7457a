use clearframe::init::{blob_spirv_shaped, InitError, InitStage};

fn magic_le() -> Vec<u8> {
    // SPIR-V magic number as a little-endian module stores it, plus one
    // version word.
    vec![0x03, 0x02, 0x23, 0x07, 0x00, 0x00, 0x01, 0x00]
}

#[test]
fn little_endian_bytecode_shape_is_accepted() {
    assert!(blob_spirv_shaped(&magic_le()));
}

#[test]
fn big_endian_bytecode_shape_is_accepted() {
    let blob = vec![0x07, 0x23, 0x02, 0x03, 0x00, 0x01, 0x00, 0x00];
    assert!(blob_spirv_shaped(&blob));
}

#[test]
fn empty_blob_is_rejected() {
    assert!(!blob_spirv_shaped(&Vec::new()));
}

#[test]
fn partial_word_blob_is_rejected() {
    let mut blob = magic_le();
    blob.push(0xFF);
    assert!(!blob_spirv_shaped(&blob));
}

#[test]
fn blob_without_magic_number_is_rejected() {
    let blob = vec![0x00, 0x01, 0x02, 0x03, 0x04, 0x05, 0x06, 0x07];
    assert!(!blob_spirv_shaped(&blob));
}

#[test]
fn magic_number_alone_is_accepted() {
    let blob = vec![0x03, 0x02, 0x23, 0x07];
    assert!(blob_spirv_shaped(&blob));
}

#[test]
fn each_error_names_its_stage() {
    assert_eq!(InitError::NoCompatibleAdapter.stage(), InitStage::AdapterSelection);
    assert_eq!(
        InitError::DeviceRequestRejected(String::from("limits")).stage(),
        InitStage::DeviceCreation
    );
    assert_eq!(InitError::ShaderNotSpirv.stage(), InitStage::PipelineAssembly);
    assert_eq!(
        InitError::ShaderRejected(String::from("bad op")).stage(),
        InitStage::PipelineAssembly
    );
    assert_eq!(
        InitError::PipelineRejected(String::from("stage mismatch")).stage(),
        InitStage::PipelineAssembly
    );
}

#[test]
fn descriptions_identify_the_failing_stage() {
    assert_eq!(
        InitError::NoCompatibleAdapter.describe(),
        "adapter selection failed: no compatible adapter"
    );
    assert_eq!(
        InitError::DeviceRequestRejected(String::from("x")).describe(),
        "device creation failed"
    );
    assert_eq!(InitError::ShaderNotSpirv.describe(), "pipeline assembly failed");
    assert_eq!(
        InitError::ShaderRejected(String::from("x")).describe(),
        "pipeline assembly failed"
    );
    assert_eq!(
        InitError::PipelineRejected(String::from("x")).describe(),
        "pipeline assembly failed"
    );
}

#[test]
fn driver_reasons_are_preserved() {
    assert_eq!(InitError::NoCompatibleAdapter.driver_reason(), None);
    assert_eq!(InitError::ShaderNotSpirv.driver_reason(), None);
    let e = InitError::ShaderRejected(String::from("invalid entry point"));
    assert_eq!(e.driver_reason(), Some(&String::from("invalid entry point")));
    let e = InitError::DeviceRequestRejected(String::from("no memory"));
    assert_eq!(e.driver_reason(), Some(&String::from("no memory")));
    let e = InitError::PipelineRejected(String::from("stage mismatch"));
    assert_eq!(e.driver_reason(), Some(&String::from("stage mismatch")));
}
