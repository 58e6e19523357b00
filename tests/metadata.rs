use russimp::metadata::{
    MetaData, MetaDataEntry, MetadataType, META_BOOL, META_DOUBLE, META_FLOAT, META_INT32,
    META_STRING, META_UINT64, META_VECTOR3D,
};
use russimp::raw::{RawArray, RawMetadata, RawMetadataEntry};
use russimp::{RussimpError, Vector3D};

fn entry(tag: u32, data: Vec<u8>) -> RawMetadataEntry {
    RawMetadataEntry { tag, data: Some(data) }
}

fn foreign_string(s: &str) -> Vec<u8> {
    let mut b = (s.len() as u32).to_le_bytes().to_vec();
    b.extend_from_slice(s.as_bytes());
    b.push(0);
    b
}

#[test]
fn bool_entry_decodes() {
    assert_eq!(MetaDataEntry::cast_data(&entry(META_BOOL, vec![1])), Ok(MetadataType::Bool(true)));
    assert_eq!(MetaDataEntry::cast_data(&entry(META_BOOL, vec![0])), Ok(MetadataType::Bool(false)));
}

#[test]
fn int32_entry_decodes_little_endian() {
    let r = MetaDataEntry::cast_data(&entry(META_INT32, (-2i32).to_le_bytes().to_vec()));
    assert_eq!(r, Ok(MetadataType::Int(-2)));
    let r = MetaDataEntry::cast_data(&entry(META_INT32, 0x0102_0304i32.to_le_bytes().to_vec()));
    assert_eq!(r, Ok(MetadataType::Int(0x0102_0304)));
}

#[test]
fn uint64_entry_decodes() {
    let v: u64 = 0x1122_3344_5566_7788;
    let r = MetaDataEntry::cast_data(&entry(META_UINT64, v.to_le_bytes().to_vec()));
    assert_eq!(r, Ok(MetadataType::ULong(v)));
}

#[test]
fn float_and_double_entries_keep_their_bits() {
    let r = MetaDataEntry::cast_data(&entry(META_FLOAT, 1.5f32.to_le_bytes().to_vec()));
    assert_eq!(r, Ok(MetadataType::Float(1.5f32.to_bits())));
    let r = MetaDataEntry::cast_data(&entry(META_DOUBLE, 2.25f64.to_le_bytes().to_vec()));
    assert_eq!(r, Ok(MetadataType::Double(2.25f64.to_bits())));
}

#[test]
fn vector_entry_decodes() {
    let mut b = Vec::new();
    for x in [1.0f32, 2.0, 3.0] {
        b.extend_from_slice(&x.to_le_bytes());
    }
    let r = MetaDataEntry::cast_data(&entry(META_VECTOR3D, b));
    let want = Vector3D { x: 1.0f32.to_bits(), y: 2.0f32.to_bits(), z: 3.0f32.to_bits() };
    assert_eq!(r, Ok(MetadataType::Vector3d(want)));
}

#[test]
fn string_entry_decodes_up_to_nul() {
    let r = MetaDataEntry::cast_data(&entry(META_STRING, foreign_string("Blender 3D Importer (http://www.blender3d.org)")));
    assert_eq!(r, Ok(MetadataType::String("Blender 3D Importer (http://www.blender3d.org)".to_string())));
}

#[test]
fn string_entry_with_invalid_utf8_is_a_primitive_error() {
    let mut b = 2u32.to_le_bytes().to_vec();
    b.extend_from_slice(&[0xff, 0xfe, 0]);
    match MetaDataEntry::cast_data(&entry(META_STRING, b)) {
        Err(RussimpError::Primitive(_)) => {}
        other => panic!("unexpected {:?}", other),
    }
}

#[test]
fn null_payload_is_an_error() {
    let e = RawMetadataEntry { tag: META_INT32, data: None };
    assert_eq!(
        MetaDataEntry::cast_data(&e),
        Err(RussimpError::MetadataError("Cant convert to integer".to_string()))
    );
}

#[test]
fn short_payload_is_an_error() {
    assert_eq!(
        MetaDataEntry::cast_data(&entry(META_UINT64, vec![1, 2, 3])),
        Err(RussimpError::MetadataError("Cant convert to ulong".to_string()))
    );
}

#[test]
fn unknown_tag_is_an_error() {
    assert_eq!(
        MetaDataEntry::cast_data(&entry(7, vec![0; 16])),
        Err(RussimpError::MetadataError("could not find caster for metadata type".to_string()))
    );
    assert!(MetaDataEntry::cast_data(&entry(META_BOOL | 0x40, vec![1])).is_err());
}

#[test]
fn bad_entry_does_not_spoil_the_table() {
    let m = RawMetadata {
        keys: RawArray::from_vec(vec!["a".to_string(), "bad".to_string(), "c".to_string()]),
        values: RawArray::from_vec(vec![
            entry(META_INT32, 5i32.to_le_bytes().to_vec()),
            entry(99, vec![1, 2, 3, 4]),
            entry(META_BOOL, vec![1]),
        ]),
    };
    let t = MetaData::from(&m);
    assert_eq!(t.keys, vec!["a".to_string(), "bad".to_string(), "c".to_string()]);
    assert_eq!(t.values.len(), 3);
    assert_eq!(t.values[0].0, Ok(MetadataType::Int(5)));
    assert!(t.values[1].0.is_err());
    assert_eq!(t.values[2].0, Ok(MetadataType::Bool(true)));
}

#[test]
fn metadata_table_like_a_blend_file() {
    let m = RawMetadata {
        keys: RawArray::from_vec(vec!["SourceAsset_Format".to_string()]),
        values: RawArray::from_vec(vec![entry(
            META_STRING,
            foreign_string("Blender 3D Importer (http://www.blender3d.org)"),
        )]),
    };
    let metadata = MetaData::from(&m);
    assert_eq!(1, metadata.keys.len());
    assert_eq!(1, metadata.values.len());
    assert_eq!("SourceAsset_Format".to_string(), metadata.keys[0]);
    assert_eq!(
        metadata.values[0].0.as_ref().unwrap(),
        &MetadataType::String("Blender 3D Importer (http://www.blender3d.org)".to_string())
    );
}
