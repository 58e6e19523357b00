//! Textures: usage types, texture slots and embedded payloads.
use vstd::prelude::*;

use crate::adapter::copy_prefix;
use crate::{Bits32, RussimpError, Russult};

verus! {

/// How a material uses a texture.
#[derive(Debug, Clone, Copy, PartialEq, Eq, Hash, Structural)]
pub enum TextureType {
    NoTexture,
    Diffuse,
    Specular,
    Ambient,
    Emissive,
    Height,
    Normals,
    Shininess,
    Opacity,
    Displacement,
    LightMap,
    Reflection,
    BaseColor,
    NormalCamera,
    EmissionColor,
    Metalness,
    Roughness,
    AmbientOcclusion,
    Unknown,
    Force32bit,
}

/// The number of texture usage types.
pub const TEXTURE_TYPE_COUNT: usize = 20;

impl TextureType {
    /// The importer's numeric value of this usage type.
    pub open spec fn spec_to_u32(self) -> u32 {
        match self {
            TextureType::NoTexture => 0,
            TextureType::Diffuse => 1,
            TextureType::Specular => 2,
            TextureType::Ambient => 3,
            TextureType::Emissive => 4,
            TextureType::Height => 5,
            TextureType::Normals => 6,
            TextureType::Shininess => 7,
            TextureType::Opacity => 8,
            TextureType::Displacement => 9,
            TextureType::LightMap => 10,
            TextureType::Reflection => 11,
            TextureType::BaseColor => 12,
            TextureType::NormalCamera => 13,
            TextureType::EmissionColor => 14,
            TextureType::Metalness => 15,
            TextureType::Roughness => 16,
            TextureType::AmbientOcclusion => 17,
            TextureType::Unknown => 18,
            TextureType::Force32bit => 0x7fff_ffff,
        }
    }

    /// The importer's numeric value of this usage type.
    #[verifier::when_used_as_spec(spec_to_u32)]
    pub fn to_u32(self) -> (r: u32)
        ensures
            r == self.spec_to_u32(),
    {
        match self {
            TextureType::NoTexture => 0,
            TextureType::Diffuse => 1,
            TextureType::Specular => 2,
            TextureType::Ambient => 3,
            TextureType::Emissive => 4,
            TextureType::Height => 5,
            TextureType::Normals => 6,
            TextureType::Shininess => 7,
            TextureType::Opacity => 8,
            TextureType::Displacement => 9,
            TextureType::LightMap => 10,
            TextureType::Reflection => 11,
            TextureType::BaseColor => 12,
            TextureType::NormalCamera => 13,
            TextureType::EmissionColor => 14,
            TextureType::Metalness => 15,
            TextureType::Roughness => 16,
            TextureType::AmbientOcclusion => 17,
            TextureType::Unknown => 18,
            TextureType::Force32bit => 0x7fff_ffff,
        }
    }

    /// The usage type with the given numeric value; `NoTexture` for a value
    /// that names no usage type.
    pub open spec fn from_u32_spec(v: u32) -> TextureType {
        match v {
            0 => TextureType::NoTexture,
            1 => TextureType::Diffuse,
            2 => TextureType::Specular,
            3 => TextureType::Ambient,
            4 => TextureType::Emissive,
            5 => TextureType::Height,
            6 => TextureType::Normals,
            7 => TextureType::Shininess,
            8 => TextureType::Opacity,
            9 => TextureType::Displacement,
            10 => TextureType::LightMap,
            11 => TextureType::Reflection,
            12 => TextureType::BaseColor,
            13 => TextureType::NormalCamera,
            14 => TextureType::EmissionColor,
            15 => TextureType::Metalness,
            16 => TextureType::Roughness,
            17 => TextureType::AmbientOcclusion,
            18 => TextureType::Unknown,
            0x7fff_ffff => TextureType::Force32bit,
            _ => TextureType::NoTexture,
        }
    }

    /// The usage type with the given numeric value; `NoTexture` for a value
    /// that names no usage type.
    pub fn from_u32(v: u32) -> (r: TextureType)
        ensures
            r == Self::from_u32_spec(v),
            r.to_u32() == v || (r == TextureType::NoTexture && forall|t: TextureType|
                t.to_u32() != v),
    {
        match v {
            0 => TextureType::NoTexture,
            1 => TextureType::Diffuse,
            2 => TextureType::Specular,
            3 => TextureType::Ambient,
            4 => TextureType::Emissive,
            5 => TextureType::Height,
            6 => TextureType::Normals,
            7 => TextureType::Shininess,
            8 => TextureType::Opacity,
            9 => TextureType::Displacement,
            10 => TextureType::LightMap,
            11 => TextureType::Reflection,
            12 => TextureType::BaseColor,
            13 => TextureType::NormalCamera,
            14 => TextureType::EmissionColor,
            15 => TextureType::Metalness,
            16 => TextureType::Roughness,
            17 => TextureType::AmbientOcclusion,
            18 => TextureType::Unknown,
            0x7fff_ffff => TextureType::Force32bit,
            _ => TextureType::NoTexture,
        }
    }

    /// This type's position among all usage types.
    pub open spec fn spec_position(self) -> usize {
        match self {
            TextureType::Force32bit => 19,
            _ => self.to_u32() as usize,
        }
    }

    /// This type's position among all usage types.
    #[verifier::when_used_as_spec(spec_position)]
    pub fn position(self) -> (r: usize)
        ensures
            r == self.spec_position(),
            r < TEXTURE_TYPE_COUNT,
    {
        match self {
            TextureType::Force32bit => 19,
            _ => self.to_u32() as usize,
        }
    }

    /// Every usage type, in the order of their numeric values.
    pub fn all() -> (r: Vec<TextureType>)
        ensures
            r@.len() == TEXTURE_TYPE_COUNT,
            forall|t: TextureType| r@.contains(t),
            forall|i: int, j: int| 0 <= i < j < r@.len() ==> r@[i].to_u32() < r@[j].to_u32(),
            forall|i: int| 0 <= i < r@.len() ==> (#[trigger] r@[i]).position() == i,
    {
        let r = vec![
            TextureType::NoTexture,
            TextureType::Diffuse,
            TextureType::Specular,
            TextureType::Ambient,
            TextureType::Emissive,
            TextureType::Height,
            TextureType::Normals,
            TextureType::Shininess,
            TextureType::Opacity,
            TextureType::Displacement,
            TextureType::LightMap,
            TextureType::Reflection,
            TextureType::BaseColor,
            TextureType::NormalCamera,
            TextureType::EmissionColor,
            TextureType::Metalness,
            TextureType::Roughness,
            TextureType::AmbientOcclusion,
            TextureType::Unknown,
            TextureType::Force32bit,
        ];
        proof {
            assert forall|t: TextureType| r@.contains(t) by {
                let i = t.to_u32();
                assert(r@[t.position() as int] == t);
            }
        }
        r
    }
}

/// How texture coordinates outside `[0, 1]` are mapped.
#[derive(Debug, Clone, Copy, PartialEq, Eq, Hash, Structural)]
pub enum TextureMapMode {
    Wrap,
    Clamp,
    Mirror,
    Decal,
}

impl TextureMapMode {
    /// The importer's numeric value of this mode.
    pub open spec fn spec_to_u32(self) -> u32 {
        match self {
            TextureMapMode::Wrap => 0,
            TextureMapMode::Clamp => 1,
            TextureMapMode::Mirror => 2,
            TextureMapMode::Decal => 3,
        }
    }

    /// The importer's numeric value of this mode.
    #[verifier::when_used_as_spec(spec_to_u32)]
    pub fn to_u32(self) -> (r: u32)
        ensures
            r == self.spec_to_u32(),
    {
        match self {
            TextureMapMode::Wrap => 0,
            TextureMapMode::Clamp => 1,
            TextureMapMode::Mirror => 2,
            TextureMapMode::Decal => 3,
        }
    }

    /// The bits this mode's value shares with `mask`.
    pub fn bitand(self, mask: u32) -> (r: u32)
        ensures
            r == self.to_u32() & mask,
    {
        self.to_u32() & mask
    }
}

/// One texel of an uncompressed texture.
#[derive(Debug, Clone, Copy, PartialEq, Eq, Structural)]
pub struct Texel {
    pub b: u8,
    pub g: u8,
    pub r: u8,
    pub a: u8,
}

/// The payload of an embedded texture.
#[derive(Debug, Clone)]
pub enum DataContent {
    /// Uncompressed pixels.
    Texel(Vec<Texel>),
    /// A compressed file, in the format that `ach_format_hint` names.
    Bytes(Vec<u8>),
}

/// A foreign embedded texture. `data` holds `width` bytes when `height` is
/// zero (a compressed file), else `width * height` texels of four bytes
/// each, in the order blue, green, red, alpha.
#[derive(Debug, Clone)]
pub struct RawTexture {
    pub width: u32,
    pub height: u32,
    pub ach_format_hint: String,
    pub filename: String,
    pub data: Vec<u8>,
}

/// The texture is usable: its data holds what its size promises.
pub open spec fn raw_texture_wf(t: RawTexture) -> bool {
    if t.height == 0 {
        t.width <= t.data.len()
    } else {
        4 * (t.width as int) * (t.height as int) <= t.data.len()
    }
}

/// The `i`-th texel of `data`.
pub open spec fn texel_at(data: Seq<u8>, i: int) -> Texel {
    Texel { b: data[4 * i], g: data[4 * i + 1], r: data[4 * i + 2], a: data[4 * i + 3] }
}

/// A converted embedded texture.
#[derive(Debug, Clone)]
pub struct Texture {
    pub height: u32,
    pub width: u32,
    pub filename: String,
    pub ach_format_hint: String,
    pub data: DataContent,
}

/// `r` holds exactly the contents of the foreign texture `t`.
pub open spec fn texture_converted(t: RawTexture, r: Texture) -> bool {
    &&& r.height == t.height
    &&& r.width == t.width
    &&& r.filename@ == t.filename@
    &&& r.ach_format_hint@ == t.ach_format_hint@
    &&& if t.height == 0 {
        r.data matches DataContent::Bytes(b) && b@ == t.data@.subrange(0, t.width as int)
    } else {
        r.data matches DataContent::Texel(px) && px@.len() == t.width * t.height && forall|i: int|
            0 <= i < px@.len() ==> #[trigger] px@[i] == texel_at(t.data@, i)
    }
}

fn load_texels(data: &Vec<u8>, n: usize) -> (r: Vec<Texel>)
    requires
        4 * n <= data.len(),
    ensures
        r@.len() == n,
        forall|i: int| 0 <= i < n ==> #[trigger] r@[i] == texel_at(data@, i),
{
    let mut out: Vec<Texel> = Vec::new();
    let mut i: usize = 0;
    while i < n
        invariant
            4 * n <= data.len(),
            i <= n,
            out@.len() == i,
            forall|j: int| 0 <= j < i ==> #[trigger] out@[j] == texel_at(data@, j),
        decreases n - i,
    {
        let t = Texel { b: data[4 * i], g: data[4 * i + 1], r: data[4 * i + 2], a: data[4 * i + 3] };
        out.push(t);
        i += 1;
    }
    out
}

fn clone_text(s: &String) -> (r: String)
    ensures
        r@ == s@,
{
    s.clone()
}

impl Texture {
    /// Copies an embedded texture out of the importer's memory.
    pub fn from_raw(t: &RawTexture) -> (r: Texture)
        requires
            raw_texture_wf(*t),
        ensures
            texture_converted(*t, r),
    {
        let data = if t.height == 0 {
            DataContent::Bytes(copy_prefix(&t.data, t.width as usize))
        } else {
            let w = t.width as u64;
            let h = t.height as u64;
            proof {
                assert(w * h <= 0xffff_ffff * 0xffff_ffff) by (nonlinear_arith)
                    requires
                        w <= 0xffff_ffff,
                        h <= 0xffff_ffff,
                ;
                assert(4 * (w * h) == 4 * w * h) by (nonlinear_arith);
            }
            let n = w * h;
            DataContent::Texel(load_texels(&t.data, n as usize))
        };
        Texture {
            height: t.height,
            width: t.width,
            filename: clone_text(&t.filename),
            ach_format_hint: clone_text(&t.ach_format_hint),
            data,
        }
    }

    /// The texture is a compressed file rather than pixels.
    pub fn is_embedded_file_compressed(&self) -> (r: bool)
        ensures
            r == (self.height == 0),
    {
        self.height == 0
    }
}

/// What the importer reports for one texture slot of a material.
#[derive(Debug, Clone)]
pub struct TextureComponent {
    pub path: String,
    pub texture_mapping: u32,
    pub uv_index: u32,
    pub blend: Bits32,
    pub op: u32,
    pub map_mode: Vec<u32>,
    pub flags: u32,
}

/// `b` holds the same fields as `a`.
pub open spec fn component_copied(a: TextureComponent, b: TextureComponent) -> bool {
    &&& b.path@ == a.path@
    &&& b.texture_mapping == a.texture_mapping
    &&& b.uv_index == a.uv_index
    &&& b.blend == a.blend
    &&& b.op == a.op
    &&& b.map_mode@ == a.map_mode@
    &&& b.flags == a.flags
}

impl TextureComponent {
    /// A copy of this slot's fields.
    pub fn copy(&self) -> (r: TextureComponent)
        ensures
            component_copied(*self, r),
    {
        let map_mode = copy_prefix(&self.map_mode, self.map_mode.len());
        proof {
            assert(map_mode@ =~= self.map_mode@);
        }
        TextureComponent {
            path: self.path.clone(),
            texture_mapping: self.texture_mapping,
            uv_index: self.uv_index,
            blend: self.blend,
            op: self.op,
            map_mode,
            flags: self.flags,
        }
    }

    /// The slot the importer reported, or an error when it reported failure
    /// for a slot it had counted.
    pub fn get_texture(reply: &Option<TextureComponent>) -> (r: Russult<TextureComponent>)
        ensures
            *reply is None ==> (r matches Err(RussimpError::TextureNotFound)),
            *reply matches Some(c) ==> (r matches Ok(d) && component_copied(c, d)),
    {
        match reply {
            Some(c) => Ok(c.copy()),
            None => Err(RussimpError::TextureNotFound),
        }
    }

    /// A texture slot with the given fields.
    pub fn new(
        path: String,
        texture_mapping: u32,
        uv_index: u32,
        blend: Bits32,
        op: u32,
        map_mode: Vec<u32>,
        flags: u32,
    ) -> (r: TextureComponent)
        ensures
            r.path == path,
            r.texture_mapping == texture_mapping,
            r.uv_index == uv_index,
            r.blend == blend,
            r.op == op,
            r.map_mode == map_mode,
            r.flags == flags,
    {
        TextureComponent { path, texture_mapping, uv_index, blend, op, map_mode, flags }
    }
}

} // verus!
