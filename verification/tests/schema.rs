use ome_metadata::ome::{
    AnnotationRef, BinData, BinDataCompressionType, External, LightPath, TiffData,
};

#[test]
fn default_compression_is_none() {
    assert!(matches!(BinData::default_compression(), BinDataCompressionType::Uncompressed));
    assert!(matches!(External::default_compression(), BinDataCompressionType::Uncompressed));
}

#[test]
fn tiff_data_defaults_are_zero() {
    assert_eq!(TiffData::default_ifd(), 0);
    assert_eq!(TiffData::default_first_z(), 0);
    assert_eq!(TiffData::default_first_t(), 0);
    assert_eq!(TiffData::default_first_c(), 0);
}

#[test]
fn schema_values_are_plain_data() {
    let path = LightPath {
        excitation_filter_ref: vec![AnnotationRef { id: "Filter:0".to_string() }],
        dichroic_ref: None,
        emission_filter_ref: Vec::new(),
        annotation_ref: Vec::new(),
    };
    let copy = path.clone();
    assert_eq!(copy.excitation_filter_ref.len(), 1);
    assert_eq!(copy.excitation_filter_ref[0].id, "Filter:0");
    let data = TiffData {
        ifd: TiffData::default_ifd(),
        first_z: TiffData::default_first_z(),
        first_t: TiffData::default_first_t(),
        first_c: TiffData::default_first_c(),
        plane_count: Some(3),
        uuid: None,
    };
    assert_eq!(data.plane_count, Some(3));
}
