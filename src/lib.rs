//! Owned, verified marshaling of a 3D scene handed over by a foreign asset
//! importer.
//!
//! The importer's output is held as plain values (see [`raw`]): arrays given
//! as a possibly-null pointer plus a count, untyped payloads given as bytes,
//! and a tree of nodes. The modules below turn that output into an owned
//! scene whose contracts state exactly what each part holds.
//!
//! Floating-point components are carried as their IEEE 754 bit patterns
//! ([`Bits32`], [`Bits64`]); callers turn them into numbers with
//! `f32::from_bits` / `f64::from_bits`.
use vstd::prelude::*;

pub mod raw;
pub mod adapter;
pub mod face;
pub mod bone;
pub mod mesh;
pub mod animation;
pub mod light;
pub mod camera;
pub mod metadata;
pub mod node;
pub mod texture;
pub mod material;
pub mod property;
pub mod fs;
pub mod scene;

verus! {

/// The IEEE 754 binary32 bit pattern of a single-precision component.
pub type Bits32 = u32;

/// The IEEE 754 binary64 bit pattern of a double-precision component.
pub type Bits64 = u64;

/// The bit pattern of the single-precision value one.
pub const ONE_BITS32: Bits32 = 0x3f80_0000;

/// The bit pattern of the single-precision value zero.
pub const ZERO_BITS32: Bits32 = 0;

/// Errors surfaced by the marshaling layer.
#[derive(Debug, Clone, PartialEq, Eq)]
pub enum RussimpError {
    /// The import call itself failed; carries the importer's message verbatim.
    Import(String),
    /// A metadata entry could not be decoded.
    MetadataError(String),
    /// A material property could not be decoded.
    MeterialError(String),
    /// A primitive conversion failed (for instance, a string that is not UTF-8).
    Primitive(String),
    /// The importer reported failure for a texture slot it had counted.
    TextureNotFound,
}

impl RussimpError {
    /// The message shown for this error: the importer's text for an import
    /// failure, a fixed text otherwise.
    pub fn to_string(&self) -> (r: String)
        ensures
            (self matches RussimpError::Import(m) ==> r@ == m@),
            (!(self is Import) ==> r@ == "unknown error"@),
    {
        match self {
            RussimpError::Import(m) => m.clone(),
            _ => String::from_str("unknown error"),
        }
    }
}

/// The result type of fallible operations of this library.
pub type Russult<T> = Result<T, RussimpError>;

/// A two-component vector.
#[derive(Debug, Clone, Copy, PartialEq, Eq, Default)]
pub struct Vector2D {
    pub x: Bits32,
    pub y: Bits32,
}

/// A three-component vector.
#[derive(Debug, Clone, Copy, PartialEq, Eq, Default)]
pub struct Vector3D {
    pub x: Bits32,
    pub y: Bits32,
    pub z: Bits32,
}

/// An RGB color.
#[derive(Debug, Clone, Copy, PartialEq, Eq, Default)]
pub struct Color3D {
    pub r: Bits32,
    pub g: Bits32,
    pub b: Bits32,
}

/// An RGBA color.
#[derive(Debug, Clone, Copy, PartialEq, Eq, Default)]
pub struct Color4D {
    pub r: Bits32,
    pub g: Bits32,
    pub b: Bits32,
    pub a: Bits32,
}

/// An axis-aligned bounding box.
#[derive(Debug, Clone, Copy, PartialEq, Eq, Default)]
pub struct AABB {
    pub min: Vector3D,
    pub max: Vector3D,
}

/// A row-major 4x4 matrix (`a1` .. `a4` is the first row).
#[derive(Debug, Clone, Copy, PartialEq, Eq, Default)]
pub struct Matrix4x4 {
    pub a1: Bits32,
    pub a2: Bits32,
    pub a3: Bits32,
    pub a4: Bits32,
    pub b1: Bits32,
    pub b2: Bits32,
    pub b3: Bits32,
    pub b4: Bits32,
    pub c1: Bits32,
    pub c2: Bits32,
    pub c3: Bits32,
    pub c4: Bits32,
    pub d1: Bits32,
    pub d2: Bits32,
    pub d3: Bits32,
    pub d4: Bits32,
}

} // verus!
