//! Light sources.
use vstd::prelude::*;

use crate::{Bits32, Color3D, Vector2D, Vector3D};

verus! {

/// The kind of a light source.
#[derive(Debug, Clone, Copy, PartialEq, Eq, Structural)]
pub enum LightSourceType {
    Undefined,
    Directional,
    Point,
    Spot,
    Ambient,
    Area,
}

impl LightSourceType {
    /// The importer's numeric value of this kind.
    pub open spec fn spec_to_u32(self) -> u32 {
        match self {
            LightSourceType::Undefined => 0,
            LightSourceType::Directional => 1,
            LightSourceType::Point => 2,
            LightSourceType::Spot => 3,
            LightSourceType::Ambient => 4,
            LightSourceType::Area => 5,
        }
    }

    /// The importer's numeric value of this kind.
    #[verifier::when_used_as_spec(spec_to_u32)]
    pub fn to_u32(self) -> (r: u32)
        ensures
            r == self.spec_to_u32(),
    {
        match self {
            LightSourceType::Undefined => 0,
            LightSourceType::Directional => 1,
            LightSourceType::Point => 2,
            LightSourceType::Spot => 3,
            LightSourceType::Ambient => 4,
            LightSourceType::Area => 5,
        }
    }

    /// The kind with the given numeric value, matched exactly; `Undefined`
    /// for any other value.
    pub fn from_u32(v: u32) -> (r: LightSourceType)
        ensures
            v <= 5 ==> r.to_u32() == v,
            v > 5 ==> r == LightSourceType::Undefined,
    {
        match v {
            1 => LightSourceType::Directional,
            2 => LightSourceType::Point,
            3 => LightSourceType::Spot,
            4 => LightSourceType::Ambient,
            5 => LightSourceType::Area,
            _ => LightSourceType::Undefined,
        }
    }
}

impl Default for LightSourceType {
    fn default() -> (r: LightSourceType)
        ensures
            r == LightSourceType::Undefined,
    {
        LightSourceType::Undefined
    }
}

/// A foreign light source; its kind is the importer's numeric value.
#[derive(Debug, Clone)]
pub struct RawLight {
    pub name: String,
    pub light_source_type: u32,
    pub pos: Vector3D,
    pub direction: Vector3D,
    pub up: Vector3D,
    pub attenuation_constant: Bits32,
    pub attenuation_linear: Bits32,
    pub attenuation_quadratic: Bits32,
    pub color_diffuse: Color3D,
    pub color_specular: Color3D,
    pub color_ambient: Color3D,
    pub angle_inner_cone: Bits32,
    pub angle_outer_cone: Bits32,
    pub size: Vector2D,
}

/// A light source.
#[derive(Debug, Clone)]
pub struct Light {
    pub up: Vector3D,
    pub pos: Vector3D,
    pub name: String,
    pub angle_inner_cone: Bits32,
    pub angle_outer_cone: Bits32,
    pub attenuation_linear: Bits32,
    pub attenuation_quadratic: Bits32,
    pub attenuation_constant: Bits32,
    pub color_ambient: Color3D,
    pub color_specular: Color3D,
    pub color_diffuse: Color3D,
    pub direction: Vector3D,
    pub size: Vector2D,
    pub light_source_type: LightSourceType,
}

/// `r` holds the contents of the foreign light `l`.
pub open spec fn light_converted(l: RawLight, r: Light) -> bool {
    &&& r.name@ == l.name@
    &&& l.light_source_type <= 5 ==> r.light_source_type.to_u32() == l.light_source_type
    &&& l.light_source_type > 5 ==> r.light_source_type == LightSourceType::Undefined
    &&& r.up == l.up && r.pos == l.pos && r.direction == l.direction && r.size == l.size
    &&& r.angle_inner_cone == l.angle_inner_cone && r.angle_outer_cone == l.angle_outer_cone
    &&& r.attenuation_linear == l.attenuation_linear
    &&& r.attenuation_quadratic == l.attenuation_quadratic
    &&& r.attenuation_constant == l.attenuation_constant
    &&& r.color_ambient == l.color_ambient && r.color_specular == l.color_specular
        && r.color_diffuse == l.color_diffuse
}

impl Light {
    /// The light source of a foreign one.
    pub fn from(l: &RawLight) -> (r: Light)
        ensures
            light_converted(*l, r),
    {
        Light {
            up: l.up,
            pos: l.pos,
            name: l.name.clone(),
            angle_inner_cone: l.angle_inner_cone,
            angle_outer_cone: l.angle_outer_cone,
            attenuation_linear: l.attenuation_linear,
            attenuation_quadratic: l.attenuation_quadratic,
            attenuation_constant: l.attenuation_constant,
            color_ambient: l.color_ambient,
            color_specular: l.color_specular,
            color_diffuse: l.color_diffuse,
            direction: l.direction,
            size: l.size,
            light_source_type: LightSourceType::from_u32(l.light_source_type),
        }
    }
}

} // verus!
