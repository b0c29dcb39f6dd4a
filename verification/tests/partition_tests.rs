use img_compressor::partition::{output_file_name, partition_path, source_key};

#[test]
fn file_name_from_identifiers() {
    assert_eq!(output_file_name("S1", "O1"), "S1|O1.jpeg");
}

#[test]
fn partition_path_from_date() {
    let name = output_file_name("S1", "O1");
    let key = partition_path("out", "20230715", &name);
    assert_eq!(key, "out/compressed_images/2023_07/S1|O1.jpeg");
}

#[test]
fn partition_key_is_deterministic() {
    let a = partition_path("dst", "20191130", &output_file_name("ser", "obj"));
    let b = partition_path("dst", "20191130", &output_file_name("ser", "obj"));
    assert_eq!(a, b);
    assert_eq!(a, "dst/compressed_images/2019_11/ser|obj.jpeg");
}

#[test]
fn output_policy_is_fixed() {
    assert_eq!(img_compressor::pipeline::OUTPUT_SAMPLE_BITS, 8);
    assert_eq!(img_compressor::pipeline::OUTPUT_CHANNELS, 1);
    assert!(output_file_name("a", "b").ends_with(".jpeg"));
}

#[test]
fn source_key_joins_prefix_and_file() {
    assert_eq!(source_key("incoming/dicom", "scan1.dcm"), "incoming/dicom/scan1.dcm");
    assert_eq!(source_key("", "scan1.dcm"), "/scan1.dcm");
}
