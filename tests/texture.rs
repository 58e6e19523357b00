use russimp::material::TextureType;
use russimp::texture::{DataContent, RawTexture, Texture, TextureMapMode};

#[test]
fn compressed_texture_keeps_its_bytes() {
    let raw = RawTexture {
        width: 3,
        height: 0,
        ach_format_hint: "png".to_string(),
        filename: "a.png".to_string(),
        data: vec![9, 8, 7, 6],
    };
    let t = Texture::from_raw(&raw);
    assert!(t.is_embedded_file_compressed());
    assert_eq!(t.ach_format_hint, "png");
    assert!(matches!(&t.data, DataContent::Bytes(x) if x == &vec![9, 8, 7]));
}

#[test]
fn uncompressed_texture_is_read_as_texels() {
    let raw = RawTexture {
        width: 2,
        height: 1,
        ach_format_hint: String::new(),
        filename: String::new(),
        data: vec![1, 2, 3, 4, 5, 6, 7, 8],
    };
    let t = Texture::from_raw(&raw);
    match &t.data {
        DataContent::Texel(px) => {
            assert_eq!(px.len(), 2);
            assert_eq!((px[1].b, px[1].g, px[1].r, px[1].a), (5, 6, 7, 8));
        }
        DataContent::Bytes(_) => panic!("expected texels"),
    }
}

#[test]
fn map_modes_are_correct() {
    let map_mode: Vec<u32> = vec![TextureMapMode::Mirror.to_u32(), TextureMapMode::Clamp.to_u32()];
    assert_ne!(TextureMapMode::Mirror.bitand(map_mode[0]), 0);
    assert_ne!(TextureMapMode::Clamp.bitand(map_mode[1]), 0);
    assert_eq!(TextureMapMode::Wrap.to_u32(), 0);
}

#[test]
fn texture_types_round_trip() {
    let all = TextureType::all();
    assert_eq!(all.len(), 20);
    for (i, t) in all.iter().enumerate() {
        assert_eq!(t.position(), i);
        assert_eq!(TextureType::from_u32(t.to_u32()), *t);
    }
    assert_eq!(TextureType::from_u32(12), TextureType::BaseColor);
    assert_eq!(TextureType::from_u32(1000), TextureType::NoTexture);
}
