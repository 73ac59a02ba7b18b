//! What the renderer reads for each entity kind: a cube mesh identifier (its
//! edge length in space milliunits) and fixed-point material values. Channel
//! values are per-mille; emissive channels may exceed one whole for highlight
//! materials. The core never mutates these: they are fixed per kind.

use vstd::prelude::*;

verus! {

/// A color in per-mille channel intensities.
#[derive(Clone, Copy, PartialEq, Eq, Structural, Debug)]
pub struct ColorMilli {
    pub r: u32,
    pub g: u32,
    pub b: u32,
}

/// The visual parameters of one entity kind: a cube of the given edge length
/// with a base color and an emissive color.
#[derive(Clone, Copy, PartialEq, Eq, Structural, Debug)]
pub struct VisualParams {
    pub cube_size: u64,
    pub base_color: ColorMilli,
    pub emissive: ColorMilli,
}

/// What an emitter looks like: a unit cube in a plain teal, no emission.
pub open spec fn spec_emitter_visual() -> VisualParams {
    (VisualParams {
        cube_size: 1000,
        base_color: ColorMilli { r: 254, g: 920, b: 900 },
        emissive: ColorMilli { r: 0, g: 0, b: 0 },
    })
}

/// What a projectile looks like: a small cube with an emissive highlight.
pub open spec fn spec_projectile_visual() -> VisualParams {
    (VisualParams {
        cube_size: 100,
        base_color: ColorMilli { r: 1000, g: 1000, b: 1000 },
        emissive: ColorMilli { r: 13_990, g: 5_320, b: 2_000 },
    })
}

/// The fixed visual parameters of every emitter.
pub fn emitter_visual() -> (v: VisualParams)
    ensures
        v == spec_emitter_visual(),
{
    VisualParams {
        cube_size: 1000,
        base_color: ColorMilli { r: 254, g: 920, b: 900 },
        emissive: ColorMilli { r: 0, g: 0, b: 0 },
    }
}

/// The fixed visual parameters of every projectile.
pub fn projectile_visual() -> (v: VisualParams)
    ensures
        v == spec_projectile_visual(),
{
    VisualParams {
        cube_size: 100,
        base_color: ColorMilli { r: 1000, g: 1000, b: 1000 },
        emissive: ColorMilli { r: 13_990, g: 5_320, b: 2_000 },
    }
}

} // verus!
