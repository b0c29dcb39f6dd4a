use dicom_core::value::{DataSetSequence, PrimitiveValue, Value};
use dicom_core::{DataElement, Tag, VR};
use dicom_object::meta::FileMetaTableBuilder;
use dicom_object::InMemDicomObject;
use img_compressor::pipeline::{process_batch, process_object, stage_object, UnitError};
use img_compressor::render::render_object;

/// Builds a small grayscale object: 8-bit samples, MONOCHROME2, one
/// 2x2 plane per entry of `frames`, with an explicit window that maps
/// each stored sample `x` to `x * 255 / 256`.
fn base_object(series: &str, sop: &str, date: Option<&str>, frames: &[[u8; 4]]) -> InMemDicomObject {
    let mut obj = InMemDicomObject::new_empty();
    obj.put(DataElement::new(
        Tag(0x0008, 0x0016),
        VR::UI,
        PrimitiveValue::from("1.2.840.10008.5.1.4.1.1.7"),
    ));
    obj.put(DataElement::new(Tag(0x0008, 0x0018), VR::UI, PrimitiveValue::from(sop)));
    obj.put(DataElement::new(Tag(0x0020, 0x000E), VR::UI, PrimitiveValue::from(series)));
    if let Some(date) = date {
        obj.put(DataElement::new(Tag(0x0008, 0x0012), VR::DA, PrimitiveValue::from(date)));
    }
    obj.put(DataElement::new(Tag(0x0028, 0x0002), VR::US, PrimitiveValue::from(1_u16)));
    obj.put(DataElement::new(Tag(0x0028, 0x0004), VR::CS, PrimitiveValue::from("MONOCHROME2")));
    obj.put(DataElement::new(
        Tag(0x0028, 0x0008),
        VR::IS,
        PrimitiveValue::from(format!("{}", frames.len())),
    ));
    obj.put(DataElement::new(Tag(0x0028, 0x0010), VR::US, PrimitiveValue::from(2_u16)));
    obj.put(DataElement::new(Tag(0x0028, 0x0011), VR::US, PrimitiveValue::from(2_u16)));
    obj.put(DataElement::new(Tag(0x0028, 0x0100), VR::US, PrimitiveValue::from(8_u16)));
    obj.put(DataElement::new(Tag(0x0028, 0x0101), VR::US, PrimitiveValue::from(8_u16)));
    obj.put(DataElement::new(Tag(0x0028, 0x0102), VR::US, PrimitiveValue::from(7_u16)));
    obj.put(DataElement::new(Tag(0x0028, 0x0103), VR::US, PrimitiveValue::from(0_u16)));
    obj.put(DataElement::new(Tag(0x0028, 0x1050), VR::DS, PrimitiveValue::from("128.5")));
    obj.put(DataElement::new(Tag(0x0028, 0x1051), VR::DS, PrimitiveValue::from("257")));
    let mut pixels: Vec<u8> = Vec::new();
    for frame in frames {
        pixels.extend_from_slice(frame);
    }
    obj.put(DataElement::new(Tag(0x7FE0, 0x0010), VR::OB, PrimitiveValue::from(pixels)));
    obj
}

/// Serializes an in-memory object as a full file, preamble included.
fn serialize(obj: InMemDicomObject) -> Vec<u8> {
    let meta = FileMetaTableBuilder::new().transfer_syntax("1.2.840.10008.1.2.1");
    let file_obj = obj.with_meta(meta).expect("meta table should build");
    let mut bytes: Vec<u8> = Vec::new();
    file_obj.write_all(&mut bytes).expect("object should serialize");
    bytes
}

/// The bytes of a small grayscale object (see `base_object`).
fn build_object(series: &str, sop: &str, date: Option<&str>, frames: &[[u8; 4]]) -> Vec<u8> {
    serialize(base_object(series, sop, date, frames))
}

/// The window declared by `build_object` maps a stored sample this way.
fn windowed(x: u8) -> u8 {
    (x as u32 * 255 / 256) as u8
}

#[test]
fn converts_one_object_end_to_end() {
    let bytes = build_object("1.22.1", "9.88.9", Some("20230715"), &[[0, 64, 128, 255]]);
    let converted = process_object(bytes, "out").ok().expect("conversion should succeed");
    assert_eq!(converted.file_name, "1.22.1|9.88.9.jpeg");
    assert_eq!(converted.partition_key, "out/compressed_images/2023_07/1.22.1|9.88.9.jpeg");
    assert_eq!(converted.width, 2);
    assert_eq!(converted.height, 2);
    assert_eq!(converted.frame_count, 1);
    assert!(converted.jpeg.len() > 2);
    assert_eq!(&converted.jpeg[0..2], &[0xFF, 0xD8]);
    let decoded = image::load_from_memory(&converted.jpeg).expect("output should decode");
    assert_eq!(decoded.width(), 2);
    assert_eq!(decoded.height(), 2);
}

#[test]
fn renders_frames_in_ascending_order() {
    let f0 = [0, 64, 128, 255];
    let f1 = [10, 20, 30, 40];
    let bytes = build_object("1.22.1", "9.88.9", Some("20230715"), &[f0, f1]);
    let staged = stage_object(bytes).ok().expect("object should stage");
    let rendered = render_object(&staged).ok().expect("object should render");
    assert_eq!(rendered.width, 2);
    assert_eq!(rendered.height, 2);
    assert_eq!(rendered.frame_count, 2);
    assert_eq!(rendered.samples.len(), 2 * 2 * 2);
    let expected: Vec<u8> = f0.iter().chain(f1.iter()).map(|&x| windowed(x)).collect();
    assert_eq!(rendered.samples, expected);
    assert_eq!(&rendered.samples[0..4], &expected[0..4]);
    assert_eq!(&rendered.samples[4..8], &expected[4..8]);
}

#[test]
fn rendering_is_deterministic() {
    let bytes = build_object("1.22.1", "9.88.9", Some("20230715"), &[[0, 64, 128, 255]]);
    let staged_a = stage_object(bytes.clone()).ok().expect("object should stage");
    let staged_b = stage_object(bytes.clone()).ok().expect("object should stage");
    let rendered_a = render_object(&staged_a).ok().expect("object should render");
    let rendered_b = render_object(&staged_b).ok().expect("object should render");
    assert_eq!(rendered_a.samples, rendered_b.samples);
    let converted_a = process_object(bytes.clone(), "out").ok().expect("should convert");
    let converted_b = process_object(bytes, "out").ok().expect("should convert");
    assert_eq!(converted_a.jpeg, converted_b.jpeg);
}

#[test]
fn multi_frame_objects_are_not_encodable() {
    let bytes = build_object(
        "1.22.1",
        "9.88.9",
        Some("20230715"),
        &[[0, 64, 128, 255], [10, 20, 30, 40]],
    );
    let err = process_object(bytes, "out").err().expect("conversion should fail");
    assert!(matches!(err, UnitError::UnsupportedLayout { frame_count: 2 }));
}

#[test]
fn missing_attribute_fails_that_object() {
    let mut obj = InMemDicomObject::new_empty();
    obj.put(DataElement::new(
        Tag(0x0008, 0x0016),
        VR::UI,
        PrimitiveValue::from("1.2.840.10008.5.1.4.1.1.7"),
    ));
    obj.put(DataElement::new(Tag(0x0008, 0x0018), VR::UI, PrimitiveValue::from("9.88.9")));
    let err = process_object(serialize(obj), "out").err().expect("conversion should fail");
    match err {
        UnitError::MissingAttribute { group, element, .. } => {
            assert_eq!(group, 0x0020);
            assert_eq!(element, 0x000E);
        },
        _ => panic!("expected a missing attribute error"),
    }
}

#[test]
fn invalid_date_fails_that_object() {
    let bytes = build_object("1.22.1", "9.88.9", Some("20231399"), &[[0, 64, 128, 255]]);
    let err = process_object(bytes, "out").err().expect("conversion should fail");
    match err {
        UnitError::BadDate { value } => assert_eq!(value, "20231399"),
        _ => panic!("expected a bad date error"),
    }
}

#[test]
fn unreadable_object_fails_alone_in_a_batch() {
    let objects = vec![
        build_object("1.22.1", "9.88.1", Some("20230715"), &[[0, 64, 128, 255]]),
        b"not a medical image object".to_vec(),
        build_object("1.22.1", "9.88.3", Some("20230715"), &[[10, 20, 30, 40]]),
    ];
    let outcomes = process_batch(&objects, "out");
    assert_eq!(outcomes.len(), 3);
    assert!(outcomes[0].is_ok());
    assert!(matches!(outcomes[1], Err(UnitError::NotParsed { .. })));
    assert!(outcomes[2].is_ok());
    assert_eq!(outcomes[0].as_ref().ok().unwrap().file_name, "1.22.1|9.88.1.jpeg");
    assert_eq!(outcomes[2].as_ref().ok().unwrap().file_name, "1.22.1|9.88.3.jpeg");
    match &outcomes[1] {
        Err(e) => assert!(e.describe().starts_with("object does not parse: ")),
        Ok(_) => panic!("expected the middle object to fail"),
    }
}

#[test]
fn unsupported_bit_depth_fails_that_object() {
    // A 16-bit object whose declared stored bit depth is zero: it
    // parses and its payload decodes, but no frame conversion is
    // attempted for such a depth.
    let mut obj = InMemDicomObject::new_empty();
    obj.put(DataElement::new(
        Tag(0x0008, 0x0016),
        VR::UI,
        PrimitiveValue::from("1.2.840.10008.5.1.4.1.1.7"),
    ));
    obj.put(DataElement::new(Tag(0x0008, 0x0018), VR::UI, PrimitiveValue::from("9.88.9")));
    obj.put(DataElement::new(Tag(0x0020, 0x000E), VR::UI, PrimitiveValue::from("1.22.1")));
    obj.put(DataElement::new(Tag(0x0008, 0x0012), VR::DA, PrimitiveValue::from("20230715")));
    obj.put(DataElement::new(Tag(0x0028, 0x0002), VR::US, PrimitiveValue::from(1_u16)));
    obj.put(DataElement::new(Tag(0x0028, 0x0004), VR::CS, PrimitiveValue::from("MONOCHROME2")));
    obj.put(DataElement::new(Tag(0x0028, 0x0008), VR::IS, PrimitiveValue::from("1")));
    obj.put(DataElement::new(Tag(0x0028, 0x0010), VR::US, PrimitiveValue::from(2_u16)));
    obj.put(DataElement::new(Tag(0x0028, 0x0011), VR::US, PrimitiveValue::from(2_u16)));
    obj.put(DataElement::new(Tag(0x0028, 0x0100), VR::US, PrimitiveValue::from(16_u16)));
    obj.put(DataElement::new(Tag(0x0028, 0x0101), VR::US, PrimitiveValue::from(0_u16)));
    obj.put(DataElement::new(Tag(0x0028, 0x0102), VR::US, PrimitiveValue::from(15_u16)));
    obj.put(DataElement::new(Tag(0x0028, 0x0103), VR::US, PrimitiveValue::from(0_u16)));
    obj.put(DataElement::new(
        Tag(0x7FE0, 0x0010),
        VR::OW,
        PrimitiveValue::from(&[0_u16, 64, 128, 255]),
    ));
    let err = process_object(serialize(obj), "out").err().expect("conversion should fail");
    match err {
        UnitError::UnsupportedDepth { bits_stored } => assert_eq!(bits_stored, 0),
        _ => panic!("expected an unsupported depth error"),
    }
}

#[test]
fn oversized_lookup_table_fails_that_object() {
    // An 8-bit object declaring a value-of-interest lookup table with
    // 16-bit entries: the table is wider than the 8-bit conversion
    // path, so the object is rejected rather than converted.
    let mut obj = base_object("1.22.1", "9.88.9", Some("20230715"), &[[0, 64, 128, 255]]);
    let mut lut = InMemDicomObject::new_empty();
    lut.put(DataElement::new(Tag(0x0028, 0x3002), VR::US, PrimitiveValue::from(&[4_u16, 0, 16])));
    lut.put(DataElement::new(
        Tag(0x0028, 0x3006),
        VR::US,
        PrimitiveValue::from(&[0_u16, 100, 200, 300]),
    ));
    obj.put(DataElement::new(
        Tag(0x0028, 0x3010),
        VR::SQ,
        Value::from(DataSetSequence::from(vec![lut])),
    ));
    let err = process_object(serialize(obj), "out").err().expect("conversion should fail");
    match err {
        UnitError::UnsupportedLut {} => {},
        other => panic!("expected a lookup-table error, got: {}", other.describe()),
    }
}

#[test]
fn batch_source_keys_join_prefix_and_files() {
    let cfg = img_compressor::pipeline::ImgCompressorConfig {
        source_bucket: "src-bucket".to_string(),
        source_prefix: "incoming".to_string(),
        target_bucket: "dst-bucket".to_string(),
        target_prefix: "out".to_string(),
        files: vec!["a.dcm".to_string(), "b.dcm".to_string()],
    };
    let keys = img_compressor::pipeline::batch_source_keys(&cfg);
    assert_eq!(keys, vec!["incoming/a.dcm".to_string(), "incoming/b.dcm".to_string()]);
}
