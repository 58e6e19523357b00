use russimp::material::{
    base_name_of, generate_materials, get_embedded_texture, parse_index, Material, MaterialProperty,
    MaterialPropertyData, MaterialPropertyKey, PropertyReply, RawMaterial, RawMaterialProperty,
    RawTextureSlots, TextureSource, TextureType, PTI_BUFFER, PTI_DOUBLE, PTI_FLOAT, PTI_INTEGER, PTI_STRING,
};
use russimp::raw::RawArray;
use russimp::texture::{RawTexture, TextureComponent};
use russimp::{Color4D, RussimpError};

fn prop(key: &str, tag: u32, data: Vec<u8>, reply: PropertyReply) -> RawMaterialProperty {
    RawMaterialProperty { key: key.to_string(), semantic: 0, index: 0, type_tag: tag, data, reply }
}

fn floats(v: &[f32]) -> Vec<u32> {
    v.iter().map(|x| x.to_bits()).collect()
}

fn texture(name: &str) -> RawTexture {
    RawTexture { width: 2, height: 0, ach_format_hint: "png".to_string(), filename: name.to_string(), data: vec![1, 2] }
}

fn slot(path: &str) -> Option<TextureComponent> {
    Some(TextureComponent::new(path.to_string(), 0, 0, 1.0f32.to_bits(), 0, vec![0, 0], 0))
}

fn material(props: Vec<RawMaterialProperty>, slots: Vec<RawTextureSlots>) -> RawMaterial {
    RawMaterial { properties: RawArray::from_vec(props), texture_slots: slots }
}

#[test]
fn float_property_takes_the_requested_length() {
    let p = prop("$clr.diffuse", PTI_FLOAT, vec![0; 12], PropertyReply::Floats(floats(&[0.8, 0.8])));
    assert_eq!(MaterialProperty::request_len(&p), 3);
    let r = MaterialProperty::try_get_data_from_property(&p, &p.reply);
    assert_eq!(r, Ok(MaterialPropertyData::FloatArray(vec![0.8f32.to_bits(), 0.8f32.to_bits(), 0])));
}

#[test]
fn double_property_asks_for_half_as_many() {
    let p = prop("$mat.x", PTI_DOUBLE, vec![0; 16], PropertyReply::Floats(floats(&[1.0, 2.0, 3.0])));
    assert_eq!(MaterialProperty::request_len(&p), 2);
    let r = MaterialProperty::try_get_data_from_property(&p, &p.reply);
    assert_eq!(r, Ok(MaterialPropertyData::FloatArray(floats(&[1.0, 2.0]))));
}

#[test]
fn integer_string_and_buffer_properties_decode() {
    let p = prop("$mat.blend.transparency.method", PTI_INTEGER, vec![0; 4], PropertyReply::Integers(vec![1]));
    assert_eq!(MaterialProperty::try_get_data_from_property(&p, &p.reply), Ok(MaterialPropertyData::IntegerArray(vec![1])));
    let p = prop("?mat.name", PTI_STRING, vec![0; 8], PropertyReply::Text("Material".to_string()));
    assert_eq!(MaterialProperty::try_get_data_from_property(&p, &p.reply), Ok(MaterialPropertyData::String("Material".to_string())));
    let p = prop("$mat.twosided", PTI_BUFFER, vec![1, 0, 0, 0], PropertyReply::Failure);
    assert_eq!(MaterialProperty::try_get_data_from_property(&p, &p.reply), Ok(MaterialPropertyData::Buffer(vec![1, 0, 0, 0])));
}

#[test]
fn failed_getter_names_the_key() {
    let p = prop("$clr.base", PTI_FLOAT, vec![0; 16], PropertyReply::Failure);
    assert_eq!(
        MaterialProperty::try_get_data_from_property(&p, &p.reply),
        Err(RussimpError::MeterialError("Error while parsing $clr.base to f32".to_string()))
    );
    let p = prop("?mat.name", PTI_STRING, vec![], PropertyReply::Integers(vec![]));
    assert_eq!(
        MaterialProperty::try_get_data_from_property(&p, &p.reply),
        Err(RussimpError::MeterialError("Error while parsing ?mat.name to string".to_string()))
    );
}

#[test]
fn unknown_property_type_is_an_error() {
    let p = prop("k", 9, vec![], PropertyReply::Failure);
    assert_eq!(
        MaterialProperty::try_get_data_from_property(&p, &p.reply),
        Err(RussimpError::MeterialError("could not find caster for property type".to_string()))
    );
}

#[test]
fn color_of_three_floats_has_alpha_one() {
    let m = Material::new(
        &material(vec![prop("$clr.diffuse", PTI_FLOAT, vec![0; 12], PropertyReply::Floats(floats(&[0.8, 0.8, 0.8])))], vec![]),
        &RawArray::from_vec(vec![]),
    );
    let c = m.color_diffuse();
    let v = 0.8f32.to_bits();
    assert_eq!(c, Color4D { r: v, g: v, b: v, a: 1.0f32.to_bits() });
}

#[test]
fn color_of_four_floats_keeps_alpha() {
    let m = Material::new(
        &material(vec![prop("$clr.base", PTI_FLOAT, vec![0; 16], PropertyReply::Floats(floats(&[0.1, 0.2, 0.3, 0.4])))], vec![]),
        &RawArray::from_vec(vec![]),
    );
    assert_eq!(f32::from_bits(m.base_color().a), 0.4);
    assert_eq!(m.color_ambient(), Color4D::default());
}

#[test]
fn material_lookups() {
    let m = Material::new(
        &material(
            vec![
                prop("?mat.name", PTI_STRING, vec![0; 8], PropertyReply::Text("Material".to_string())),
                prop("$mat.blend.mirror.glossAnisotropic", PTI_FLOAT, vec![0; 4], PropertyReply::Floats(floats(&[1.0]))),
                prop("$mat.blend.transparency.method", PTI_INTEGER, vec![0; 4], PropertyReply::Integers(vec![1])),
                prop("$mat.twosided", PTI_BUFFER, vec![1], PropertyReply::Failure),
                prop("$mat.shadingm", PTI_INTEGER, vec![0; 4], PropertyReply::Integers(vec![3])),
            ],
            vec![],
        ),
        &RawArray::from_vec(vec![]),
    );
    assert_eq!(m.properties.len(), 5);
    assert_eq!(m.name(), Some("Material".to_string()));
    assert_eq!(m.try_lookup::<u32>(&MaterialPropertyKey::from("$mat.blend.mirror.glossAnisotropic")), Some(1.0f32.to_bits()));
    assert_eq!(m.try_lookup::<i32>(&MaterialPropertyKey::from("$mat.blend.transparency.method")), Some(1));
    assert_eq!(m.try_lookup::<i32>(&MaterialPropertyKey::from("$mat.missing")), None);
    assert_eq!(m.try_lookup_with_default::<i32>(&MaterialPropertyKey::from("$mat.missing"), 7), 7);
    assert!(m.is_two_sided());
    assert!(!m.is_wireframe());
    assert_eq!(m.shading_mode(), 3);
    assert_eq!(m.blend_func(), 0);
    assert_eq!(m.texture_op(0, TextureType::Diffuse), None);
}

#[test]
fn later_property_with_the_same_key_wins() {
    let m = Material::new(
        &material(
            vec![
                prop("$mat.opacity", PTI_FLOAT, vec![0; 4], PropertyReply::Floats(floats(&[0.5]))),
                prop("$mat.opacity", PTI_FLOAT, vec![0; 4], PropertyReply::Floats(floats(&[0.25]))),
            ],
            vec![],
        ),
        &RawArray::from_vec(vec![]),
    );
    assert_eq!(m.try_lookup::<u32>(&MaterialPropertyKey::from("$mat.opacity")), Some(0.25f32.to_bits()));
}

#[test]
fn embedded_texture_by_index() {
    let textures = RawArray::from_vec(vec![texture("a.png"), texture("dir/b.png")]);
    assert_eq!(get_embedded_texture(&"*1".to_string(), &textures), Some(1));
    assert_eq!(get_embedded_texture(&"*0".to_string(), &textures), Some(0));
    assert_eq!(get_embedded_texture(&"*2".to_string(), &textures), None);
    assert_eq!(get_embedded_texture(&"*x".to_string(), &textures), None);
    assert_eq!(get_embedded_texture(&"*99999999999999999999999".to_string(), &textures), None);
}

#[test]
fn embedded_texture_by_base_name() {
    let textures = RawArray::from_vec(vec![texture("a.png"), texture("dir/b.png"), texture("other/b.png")]);
    assert_eq!(get_embedded_texture(&"/far/away/b.png".to_string(), &textures), Some(1));
    assert_eq!(get_embedded_texture(&"a.png".to_string(), &textures), Some(0));
    assert_eq!(get_embedded_texture(&"c.png".to_string(), &textures), None);
    assert_eq!(get_embedded_texture(&"dir/".to_string(), &textures), None);
}

#[test]
fn decimal_indices_parse() {
    let s: Vec<char> = "*12".chars().collect();
    assert_eq!(parse_index(&s, 1, 13), Some(12));
    assert_eq!(parse_index(&s, 1, 12), None);
    let s: Vec<char> = "*1a".chars().collect();
    assert_eq!(parse_index(&s, 1, 100), None);
}

#[test]
fn star_without_index_falls_back_to_base_name() {
    let textures = RawArray::from_vec(vec![texture("a.png"), texture("*a")]);
    assert_eq!(get_embedded_texture(&"*a".to_string(), &textures), Some(1));
    assert_eq!(get_embedded_texture(&"*".to_string(), &textures), None);
}

#[test]
fn base_names_follow_path_rules() {
    let b = |s: &str| base_name_of(&s.chars().collect()).map(|v| v.into_iter().collect::<String>());
    assert_eq!(b("x/"), Some("x".to_string()));
    assert_eq!(b("dir/."), Some("dir".to_string()));
    assert_eq!(b("a/./"), Some("a".to_string()));
    assert_eq!(b("a//b"), Some("b".to_string()));
    assert_eq!(b("a/.."), None);
    assert_eq!(b("/"), None);
    assert_eq!(b("."), None);
    assert_eq!(b(""), None);
    assert_eq!(b("..."), Some("...".to_string()));
    let textures = RawArray::from_vec(vec![texture("x")]);
    assert_eq!(get_embedded_texture(&"x/".to_string(), &textures), Some(0));
}

#[test]
fn slots_sharing_an_embedded_texture_share_it() {
    let textures = RawArray::from_vec(vec![texture("a.png"), texture("b.png")]);
    let m1 = material(vec![], vec![RawTextureSlots { texture_type: TextureType::Diffuse, slots: vec![slot("*1")] }]);
    let m2 = material(
        vec![],
        vec![RawTextureSlots { texture_type: TextureType::BaseColor, slots: vec![slot("textures/b.png")] }],
    );
    let ms = generate_materials(&RawArray::from_vec(vec![m1, m2]), &textures);
    assert_eq!(ms.len(), 2);
    assert_eq!(ms[0].textures_of(TextureType::Diffuse)[0].as_ref().unwrap().source, TextureSource::Embedded(1));
    assert_eq!(ms[1].textures_of(TextureType::BaseColor)[0].as_ref().unwrap().source, TextureSource::Embedded(1));
    assert!(ms[0].textures_of(TextureType::BaseColor).is_empty());
}

#[test]
fn failed_slot_is_kept_as_an_error_and_slots_keep_their_order() {
    let textures = RawArray::from_vec(vec![texture("a.png"), texture("b.png")]);
    let m = material(
        vec![],
        vec![RawTextureSlots {
            texture_type: TextureType::Diffuse,
            slots: vec![slot("*0"), None, slot("*1"), slot("missing.png")],
        }],
    );
    let r = Material::new(&m, &textures);
    let d = r.textures_of(TextureType::Diffuse);
    assert_eq!(d.len(), 4);
    assert_eq!(d[0].as_ref().unwrap().source, TextureSource::Embedded(0));
    assert!(matches!(d[1], Err(RussimpError::TextureNotFound)));
    assert_eq!(d[2].as_ref().unwrap().source, TextureSource::Embedded(1));
    assert_eq!(d[3].as_ref().unwrap().source, TextureSource::External("missing.png".to_string()));
}

#[test]
fn unmatched_slot_is_an_external_reference() {
    let textures = RawArray::from_vec(vec![]);
    let m = material(vec![], vec![RawTextureSlots { texture_type: TextureType::Diffuse, slots: vec![slot("CesiumLogoFlat.png")] }]);
    let r = Material::new(&m, &textures);
    let d = r.textures_of(TextureType::Diffuse);
    assert_eq!(d.len(), 1);
    let t = d[0].as_ref().unwrap();
    assert_eq!(t.source, TextureSource::External("CesiumLogoFlat.png".to_string()));
    assert_eq!(t.slot.path, "CesiumLogoFlat.png");
    assert_eq!(t.slot.map_mode, vec![0, 0]);
    assert_eq!(f32::from_bits(t.slot.blend), 1.0);
}

#[test]
fn string_property_reads_as_string() {
    let m = Material::new(
        &material(vec![prop("?mat.name", PTI_STRING, vec![0; 8], PropertyReply::Text("Steel".to_string()))], vec![]),
        &RawArray::from_vec(vec![]),
    );
    assert_eq!(m.try_lookup::<String>(&MaterialPropertyKey::from("?mat.name")), Some("Steel".to_string()));
    assert_eq!(m.try_lookup_default::<String>(&MaterialPropertyKey::from("$mat.none")), String::new());
}
