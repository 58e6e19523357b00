use russimp::property::{Property, PropertyStore, StoredProperty};

fn find<'a>(store: &'a PropertyStore, name: &[u8]) -> Option<&'a StoredProperty> {
    store.as_ptr().iter().rev().find(|(k, _)| k.as_slice() == name).map(|(_, v)| v)
}

#[test]
fn integer_key_stops_at_nul() {
    let mut store = PropertyStore::default();
    store.set_integer(b"IMPORT_FBX_READ_WEIGHTS\0garbage", 0);
    assert!(matches!(find(&store, b"IMPORT_FBX_READ_WEIGHTS"), Some(StoredProperty::Integer(0))));
}

#[test]
fn setting_again_replaces() {
    let mut store = PropertyStore::default();
    store.set_integer(b"A\0", 1);
    store.set_integer(b"A\0", 2);
    assert!(matches!(find(&store, b"A"), Some(StoredProperty::Integer(2))));
}

#[test]
fn string_is_cut_to_the_buffer() {
    let long: &'static str = Box::leak("x".repeat(1500).into_boxed_str());
    let mut store = PropertyStore::default();
    store.set_string(b"PP_OG_EXCLUDE_LIST\0", "Bone_end");
    store.set_string(b"LONG\0", long);
    match find(&store, b"PP_OG_EXCLUDE_LIST") {
        Some(StoredProperty::String { length, data }) => {
            assert_eq!(*length, 8);
            assert_eq!(data.as_slice(), b"Bone_end");
        }
        _ => panic!("missing string"),
    }
    match find(&store, b"LONG") {
        Some(StoredProperty::String { length, data }) => {
            assert_eq!(*length, 1500);
            assert_eq!(data.len(), 1024);
        }
        _ => panic!("missing string"),
    }
}

#[test]
fn matrix_is_stored_row_major() {
    let mut m = [[0u32; 4]; 4];
    for c in 0..4 {
        for r in 0..4 {
            m[c][r] = (10 * c + r) as u32;
        }
    }
    let mut store = PropertyStore::default();
    store.set_matrix(b"PP_PTV_ROOT_TRANSFORMATION\0", m);
    match find(&store, b"PP_PTV_ROOT_TRANSFORMATION") {
        Some(StoredProperty::Matrix(x)) => {
            assert_eq!(x.a1, 0);
            assert_eq!(x.a2, 10);
            assert_eq!(x.b1, 1);
            assert_eq!(x.d3, 23);
        }
        _ => panic!("missing matrix"),
    }
}

#[test]
fn store_from_properties() {
    let props: Vec<(&'static [u8], Property)> = vec![
        (b"IMPORT_COLLADA_IGNORE_UP_DIRECTION\0", Property::Integer(1)),
        (b"PP_GSN_MAX_SMOOTHING_ANGLE\0", Property::Float(80.0f32.to_bits())),
        (b"PP_OG_EXCLUDE_LIST\0", Property::String("Bone_end")),
    ];
    let store = PropertyStore::from_properties(&props);
    assert!(matches!(find(&store, b"IMPORT_COLLADA_IGNORE_UP_DIRECTION"), Some(StoredProperty::Integer(1))));
    assert!(matches!(find(&store, b"PP_GSN_MAX_SMOOTHING_ANGLE"), Some(StoredProperty::Float(b)) if f32::from_bits(*b) == 80.0));
    assert_eq!(store.as_ptr().len(), 3);
}

#[test]
fn set_property_stores_a_string_like_set_string() {
    let mut store = PropertyStore::default();
    store.set_integer(b"OTHER\0", 3);
    store.set_integer(b"NAME\0", 1);
    store.set_property(b"NAME\0", &Property::String("abc"));
    match find(&store, b"NAME") {
        Some(StoredProperty::String { length, data }) => {
            assert_eq!(*length, 3);
            assert_eq!(data.as_slice(), b"abc");
        }
        _ => panic!("missing string"),
    }
    assert!(matches!(find(&store, b"OTHER"), Some(StoredProperty::Integer(3))));
}

#[test]
fn from_properties_keeps_the_last_value_of_a_name() {
    let props: Vec<(&'static [u8], Property)> = vec![
        (b"A\0", Property::Integer(1)),
        (b"B\0", Property::Integer(2)),
        (b"A\0x", Property::Integer(7)),
    ];
    let store = PropertyStore::from_properties(&props);
    assert!(matches!(find(&store, b"A"), Some(StoredProperty::Integer(7))));
    assert!(matches!(find(&store, b"B"), Some(StoredProperty::Integer(2))));
}
