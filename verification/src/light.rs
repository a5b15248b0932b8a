//! Lights and materials, in milli fixed point.
//!
//! Color channels and reflection coefficients use the milli scale:
//! `1000` is full intensity.  A light's position is homogeneous: a
//! `w` of zero makes it directional.

use vstd::prelude::*;

use crate::math::{div_trunc_i128, spec_div_trunc, Vec3, PI_MICRO};

verus! {

/// A four-component vector of milli fixed-point values.
#[derive(Clone, Copy, Debug, PartialEq, Eq, Structural)]
pub struct Vec4 {
    pub x: i64,
    pub y: i64,
    pub z: i64,
    pub w: i64,
}

impl Vec4 {
    /// The zero vector.
    pub fn zero() -> (r: Vec4)
        ensures
            r == (Vec4 { x: 0, y: 0, z: 0, w: 0 }),
    {
        Vec4 { x: 0, y: 0, z: 0, w: 0 }
    }

    /// A vector from its four components.
    pub fn xyzw(x: i64, y: i64, z: i64, w: i64) -> (r: Vec4)
        ensures
            r == (Vec4 { x, y, z, w }),
    {
        Vec4 { x, y, z, w }
    }
}

/// An RGB color in milli units.
#[derive(Clone, Copy, Debug, PartialEq, Eq, Structural)]
pub struct Color {
    pub r: i64,
    pub g: i64,
    pub b: i64,
}

impl Color {
    /// A color from its three channels, milli units.
    pub fn new(r: i64, g: i64, b: i64) -> (c: Color)
        ensures
            c == (Color { r, g, b }),
    {
        Color { r, g, b }
    }

    /// A grey color with all three channels equal.
    pub fn uniform(v: i64) -> (c: Color)
        ensures
            c == (Color { r: v, g: v, b: v }),
    {
        Color::new(v, v, v)
    }

    /// Black.
    pub fn black() -> (c: Color)
        ensures
            c == (Color { r: 0, g: 0, b: 0 }),
    {
        Color::new(0, 0, 0)
    }

    /// White.
    pub fn white() -> (c: Color)
        ensures
            c == (Color { r: 1000, g: 1000, b: 1000 }),
    {
        Color::new(1000, 1000, 1000)
    }

    /// Red.
    pub fn red() -> (c: Color)
        ensures
            c == (Color { r: 1000, g: 0, b: 0 }),
    {
        Color::new(1000, 0, 0)
    }

    /// Green.
    pub fn green() -> (c: Color)
        ensures
            c == (Color { r: 0, g: 1000, b: 0 }),
    {
        Color::new(0, 1000, 0)
    }

    /// Blue.
    pub fn blue() -> (c: Color)
        ensures
            c == (Color { r: 0, g: 0, b: 1000 }),
    {
        Color::new(0, 0, 1000)
    }

    /// Yellow.
    pub fn yellow() -> (c: Color)
        ensures
            c == (Color { r: 1000, g: 1000, b: 0 }),
    {
        Color::new(1000, 1000, 0)
    }

    /// The channels as an array.
    pub fn into_array(self) -> (a: [i64; 3])
        ensures
            a[0] == self.r,
            a[1] == self.g,
            a[2] == self.b,
    {
        [self.r, self.g, self.b]
    }

    /// The channels as a vector.
    pub fn into_vector3(self) -> (v: Vec3)
        ensures
            v == (Vec3 { x: self.r, y: self.g, z: self.b }),
    {
        Vec3 { x: self.r, y: self.g, z: self.b }
    }
}

/// Represents a light.
#[derive(Clone, Copy, Debug, PartialEq, Eq, Structural)]
pub struct Light {
    /// Homogeneous position: `w == 0` for a directional light.
    pub pos: Vec4,
    pub diffuse: Vec4,
    pub specular: Vec4,
    pub constant_attenuation: i64,
    pub linear_attenuation: i64,
    pub quadratic_attenuation: i64,
    /// How wide a spotlight is, microradians.
    pub spot_cutoff: i64,
    pub spot_exponent: i64,
    pub spot_direction: Vec3,
}

impl Light {
    /// The value of a light that is off.
    pub open spec fn spec_off() -> Light {
        Light {
            pos: Vec4 { x: 0, y: 0, z: 0, w: 0 },
            diffuse: Vec4 { x: 0, y: 0, z: 0, w: 0 },
            specular: Vec4 { x: 0, y: 0, z: 0, w: 0 },
            constant_attenuation: 0,
            linear_attenuation: 0,
            quadratic_attenuation: 0,
            spot_cutoff: PI_MICRO,
            spot_exponent: 0,
            spot_direction: Vec3 { x: 0, y: 0, z: 0 },
        }
    }

    /// A new directional light.
    pub fn new_directional(dir: Vec3, diffuse: Vec4, specular: Vec4) -> (l: Light)
        ensures
            l == (Light {
                pos: Vec4 { x: dir.x, y: dir.y, z: dir.z, w: 0 },
                diffuse,
                specular,
                constant_attenuation: 0,
                linear_attenuation: 0,
                quadratic_attenuation: 0,
                spot_cutoff: PI_MICRO,
                spot_exponent: 0,
                spot_direction: Vec3 { x: 0, y: 0, z: 0 },
            }),
    {
        Light {
            pos: Vec4 { x: dir.x, y: dir.y, z: dir.z, w: 0 },
            diffuse,
            specular,
            constant_attenuation: 0,
            linear_attenuation: 0,
            quadratic_attenuation: 0,
            spot_cutoff: PI_MICRO,
            spot_exponent: 0,
            spot_direction: Vec3::new(),
        }
    }

    /// A new point light.
    pub fn new_point_light(
        pos: Vec3,
        diffuse: Vec4,
        specular: Vec4,
        constant_attenuation: i64,
        linear_attenuation: i64,
        quadratic_attenuation: i64,
    ) -> (l: Light)
        ensures
            l == (Light {
                pos: Vec4 { x: pos.x, y: pos.y, z: pos.z, w: 1000 },
                diffuse,
                specular,
                constant_attenuation,
                linear_attenuation,
                quadratic_attenuation,
                spot_cutoff: PI_MICRO,
                spot_exponent: 0,
                spot_direction: Vec3 { x: 0, y: 0, z: 0 },
            }),
    {
        Light {
            pos: Vec4 { x: pos.x, y: pos.y, z: pos.z, w: 1000 },
            diffuse,
            specular,
            constant_attenuation,
            linear_attenuation,
            quadratic_attenuation,
            spot_cutoff: PI_MICRO,
            spot_exponent: 0,
            spot_direction: Vec3::new(),
        }
    }

    /// A new spotlight; `cutoff` is how wide it is in microradians
    /// and `exponent` how focused.
    pub fn new_spotlight(
        pos: Vec3,
        dir: Vec3,
        diffuse: Vec4,
        specular: Vec4,
        constant_attenuation: i64,
        linear_attenuation: i64,
        quadratic_attenuation: i64,
        cutoff: i64,
        exponent: i64,
    ) -> (l: Light)
        ensures
            l == (Light {
                pos: Vec4 { x: pos.x, y: pos.y, z: pos.z, w: 1000 },
                diffuse,
                specular,
                constant_attenuation,
                linear_attenuation,
                quadratic_attenuation,
                spot_cutoff: cutoff,
                spot_exponent: exponent,
                spot_direction: dir,
            }),
    {
        Light {
            pos: Vec4 { x: pos.x, y: pos.y, z: pos.z, w: 1000 },
            diffuse,
            specular,
            constant_attenuation,
            linear_attenuation,
            quadratic_attenuation,
            spot_cutoff: cutoff,
            spot_exponent: exponent,
            spot_direction: dir,
        }
    }

    /// A light that is off: a directional light with no output.
    pub fn off() -> (l: Light)
        ensures
            l == (Light {
                pos: Vec4 { x: 0, y: 0, z: 0, w: 0 },
                diffuse: Vec4 { x: 0, y: 0, z: 0, w: 0 },
                specular: Vec4 { x: 0, y: 0, z: 0, w: 0 },
                constant_attenuation: 0,
                linear_attenuation: 0,
                quadratic_attenuation: 0,
                spot_cutoff: PI_MICRO,
                spot_exponent: 0,
                spot_direction: Vec3 { x: 0, y: 0, z: 0 },
            }),
    {
        Light::new_directional(Vec3::new(), Vec4::zero(), Vec4::zero())
    }
}

/// The componentwise milli product of two four-vectors.
pub open spec fn spec_scale4(a: Vec4, s: Vec4) -> Vec4 {
    Vec4 {
        x: spec_div_trunc(a.x * s.x, 1000) as i64,
        y: spec_div_trunc(a.y * s.y, 1000) as i64,
        z: spec_div_trunc(a.z * s.z, 1000) as i64,
        w: spec_div_trunc(a.w * s.w, 1000) as i64,
    }
}

/// Scaling limit for material coefficients, milli units.
pub const MATERIAL_LIMIT: i64 = 1_000_000_000;

/// Whether a four-vector is within the material range.
pub open spec fn vec4_in_material_range(v: Vec4) -> bool {
    &&& -MATERIAL_LIMIT <= v.x <= MATERIAL_LIMIT
    &&& -MATERIAL_LIMIT <= v.y <= MATERIAL_LIMIT
    &&& -MATERIAL_LIMIT <= v.z <= MATERIAL_LIMIT
    &&& -MATERIAL_LIMIT <= v.w <= MATERIAL_LIMIT
}

/// The componentwise milli product; matches `spec_scale4`.
fn scale4(a: Vec4, s: Vec4) -> (r: Vec4)
    requires
        vec4_in_material_range(a),
        vec4_in_material_range(s),
    ensures
        r == spec_scale4(a, s),
{
    proof {
        crate::math::lemma_abs_mul_le(a.x as int, s.x as int, MATERIAL_LIMIT as int, MATERIAL_LIMIT as int);
        crate::math::lemma_abs_mul_le(a.y as int, s.y as int, MATERIAL_LIMIT as int, MATERIAL_LIMIT as int);
        crate::math::lemma_abs_mul_le(a.z as int, s.z as int, MATERIAL_LIMIT as int, MATERIAL_LIMIT as int);
        crate::math::lemma_abs_mul_le(a.w as int, s.w as int, MATERIAL_LIMIT as int, MATERIAL_LIMIT as int);
        crate::math::lemma_div_trunc_abs_le(
            (a.x as int) * (s.x as int),
            1000,
            (MATERIAL_LIMIT as int) * (MATERIAL_LIMIT as int),
        );
        crate::math::lemma_div_trunc_abs_le(
            (a.y as int) * (s.y as int),
            1000,
            (MATERIAL_LIMIT as int) * (MATERIAL_LIMIT as int),
        );
        crate::math::lemma_div_trunc_abs_le(
            (a.z as int) * (s.z as int),
            1000,
            (MATERIAL_LIMIT as int) * (MATERIAL_LIMIT as int),
        );
        crate::math::lemma_div_trunc_abs_le(
            (a.w as int) * (s.w as int),
            1000,
            (MATERIAL_LIMIT as int) * (MATERIAL_LIMIT as int),
        );
    }
    Vec4 {
        x: div_trunc_i128((a.x as i128) * (s.x as i128), 1000) as i64,
        y: div_trunc_i128((a.y as i128) * (s.y as i128), 1000) as i64,
        z: div_trunc_i128((a.z as i128) * (s.z as i128), 1000) as i64,
        w: div_trunc_i128((a.w as i128) * (s.w as i128), 1000) as i64,
    }
}

/// A surface material: reflection coefficients and a shininess, in
/// milli units.
#[derive(Clone, Copy, Debug, PartialEq, Eq, Structural)]
pub struct Material {
    pub ambient: Vec4,
    pub diffuse: Vec4,
    pub specular: Vec4,
    pub shininess: i64,
}

impl Material {
    /// Whether all coefficients are within the material range.
    pub open spec fn in_range(self) -> bool {
        vec4_in_material_range(self.ambient) && vec4_in_material_range(self.diffuse)
            && vec4_in_material_range(self.specular)
    }

    /// A material from its coefficients.
    pub fn new(ambient: Vec4, diffuse: Vec4, specular: Vec4, shininess: i64) -> (m: Material)
        ensures
            m == (Material { ambient, diffuse, specular, shininess }),
    {
        Material { ambient, diffuse, specular, shininess }
    }

    /// This material with ambient reflection `r`.
    pub fn with_ambient(self, r: Vec4) -> (m: Material)
        ensures
            m == (Material { ambient: r, ..self }),
    {
        Material { ambient: r, ..self }
    }

    /// This material with diffuse reflection `r`.
    pub fn with_diffuse(self, r: Vec4) -> (m: Material)
        ensures
            m == (Material { diffuse: r, ..self }),
    {
        Material { diffuse: r, ..self }
    }

    /// This material with specular reflection `r`.
    pub fn with_specular(self, r: Vec4) -> (m: Material)
        ensures
            m == (Material { specular: r, ..self }),
    {
        Material { specular: r, ..self }
    }

    /// This material with all three reflections scaled by a color.
    pub fn with_scale_rgba(self, scale: Vec4) -> (m: Material)
        requires
            self.in_range(),
            vec4_in_material_range(scale),
        ensures
            m == (Material {
                ambient: spec_scale4(self.ambient, scale),
                diffuse: spec_scale4(self.diffuse, scale),
                specular: spec_scale4(self.specular, scale),
                shininess: self.shininess,
            }),
    {
        Material {
            ambient: scale4(self.ambient, scale),
            diffuse: scale4(self.diffuse, scale),
            specular: scale4(self.specular, scale),
            shininess: self.shininess,
        }
    }
}

} // verus!
