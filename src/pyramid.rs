//! The square web-mercator tile pyramid.
//!
//! Distances are held as integers: the resolution of a level as a fixed
//! numerator (in 10^-11 map units per pixel) halved once per zoom level, and
//! coordinates in micrometres (10^-6 map units).
use vstd::arithmetic::power2::*;
use vstd::prelude::*;

verus! {

/// Resolution of level zero, in 10^-11 map units per pixel
/// (156543.03392804097 map units per pixel).
pub const BASE_RESOLUTION_SCALED: u64 = 15654303392804097;

/// Half the side of the square world, in micrometres
/// (20037508.342789 map units).
pub const HALF_EXTENT_MICROS: i64 = 20037508342789;

/// Width and height of a tile in pixels.
pub const TILE_SIZE: u32 = 256;

/// A resolution of `scaled` × 10^-11 map units per pixel, divided by
/// 2^`halvings`.
#[derive(Clone, Copy, Debug, PartialEq, Eq, Structural)]
pub struct Resolution {
    pub scaled: u64,
    pub halvings: u32,
}

impl Resolution {
    /// This resolution is strictly finer (fewer map units per pixel) than `other`.
    pub open spec fn finer_than(self, other: Resolution) -> bool {
        self.scaled as int * pow2(other.halvings as nat) < other.scaled as int * pow2(self.halvings as nat)
    }
}

/// One zoom level and its resolution.
#[derive(Clone, Copy, Debug, PartialEq, Eq, Structural)]
pub struct LevelOfDetail {
    pub z_index: u32,
    pub resolution: Resolution,
}

/// A point, in micrometres.
#[derive(Clone, Copy, Debug, PartialEq, Eq, Structural)]
pub struct MapPoint {
    pub x: i64,
    pub y: i64,
}

/// An axis-aligned rectangle, in micrometres.
#[derive(Clone, Copy, Debug, PartialEq, Eq, Structural)]
pub struct MapRect {
    pub x_min: i64,
    pub y_min: i64,
    pub x_max: i64,
    pub y_max: i64,
}

/// The direction in which tile rows grow.
#[derive(Clone, Copy, Debug, PartialEq, Eq, Structural)]
pub enum VerticalDirection {
    TopToBottom,
    BottomToTop,
}

/// Coordinate reference systems.
#[derive(Clone, Copy, Debug, PartialEq, Eq, Structural)]
pub enum Crs {
    /// Spherical web mercator.
    Epsg3857,
}

/// Why a pyramid could not be built.
#[derive(Clone, Copy, Debug, PartialEq, Eq, Structural)]
pub enum SchemaError {
    /// A pyramid needs at least one level.
    NoLevels,
}

/// The parameters of a tile pyramid.
#[derive(Clone, Debug)]
pub struct PyramidSchema {
    pub origin: MapPoint,
    pub bounds: MapRect,
    pub lods: Vec<LevelOfDetail>,
    pub tile_width: u32,
    pub tile_height: u32,
    pub y_direction: VerticalDirection,
    pub crs: Crs,
}

/// Level `z` of the pyramid: the base resolution halved `z` times.
pub open spec fn standard_level(z: u32) -> LevelOfDetail {
    LevelOfDetail { z_index: z, resolution: Resolution { scaled: BASE_RESOLUTION_SCALED, halvings: z } }
}

impl PyramidSchema {
    /// The web-mercator pyramid with levels `0..level_count`: origin at the
    /// top-left corner of the square world, 256-pixel tiles, rows from top to
    /// bottom.
    pub open spec fn is_standard(&self, level_count: u32) -> bool {
        &&& self.lods@.len() == level_count
        &&& forall|i: int| 0 <= i < level_count ==> #[trigger] self.lods@[i] == standard_level(i as u32)
        &&& self.origin == (MapPoint { x: (-HALF_EXTENT_MICROS) as i64, y: HALF_EXTENT_MICROS })
        &&& self.bounds == (MapRect {
            x_min: (-HALF_EXTENT_MICROS) as i64,
            y_min: (-HALF_EXTENT_MICROS) as i64,
            x_max: HALF_EXTENT_MICROS,
            y_max: HALF_EXTENT_MICROS,
        })
        &&& self.tile_width == TILE_SIZE
        &&& self.tile_height == TILE_SIZE
        &&& self.y_direction == VerticalDirection::TopToBottom
        &&& self.crs == Crs::Epsg3857
    }
}

/// The standard pyramid with `level_count` levels, zero levels allowed.
fn standard_pyramid(level_count: u32) -> (r: PyramidSchema)
    ensures
        r.is_standard(level_count),
{
    let mut lods: Vec<LevelOfDetail> = Vec::new();
    let mut z: u32 = 0;
    while z < level_count
        invariant
            z <= level_count,
            lods@.len() == z,
            forall|i: int| 0 <= i < z ==> #[trigger] lods@[i] == standard_level(i as u32),
        decreases level_count - z,
    {
        lods.push(LevelOfDetail {
            z_index: z,
            resolution: Resolution { scaled: BASE_RESOLUTION_SCALED, halvings: z },
        });
        z = z + 1;
    }
    PyramidSchema {
        origin: MapPoint { x: -HALF_EXTENT_MICROS, y: HALF_EXTENT_MICROS },
        bounds: MapRect {
            x_min: -HALF_EXTENT_MICROS,
            y_min: -HALF_EXTENT_MICROS,
            x_max: HALF_EXTENT_MICROS,
            y_max: HALF_EXTENT_MICROS,
        },
        lods,
        tile_width: TILE_SIZE,
        tile_height: TILE_SIZE,
        y_direction: VerticalDirection::TopToBottom,
        crs: Crs::Epsg3857,
    }
}

/// The web-mercator pyramid with levels `0..max_level_count`; fails when
/// `max_level_count` is zero.
pub fn pmtiles_schema(max_level_count: u32) -> (r: Result<PyramidSchema, SchemaError>)
    ensures
        max_level_count == 0 <==> r is Err,
        r is Err ==> r == Result::<PyramidSchema, SchemaError>::Err(SchemaError::NoLevels),
        r is Ok ==> r->Ok_0.is_standard(max_level_count),
{
    if max_level_count == 0 {
        Err(SchemaError::NoLevels)
    } else {
        Ok(standard_pyramid(max_level_count))
    }
}

/// Builds a tile schema from the number of zoom levels of an archive.
pub trait TileSchemaExt: Sized {
    fn pmtiles(lods: u32) -> Self
        requires
            lods >= 1,
    ;
}

impl TileSchemaExt for PyramidSchema {
    fn pmtiles(lods: u32) -> (r: PyramidSchema)
        ensures
            r.is_standard(lods),
    {
        standard_pyramid(lods)
    }
}

/// In a pyramid built from `level_count >= 1` there are exactly
/// `level_count` levels, numbered from zero, and each level is strictly
/// finer than every level before it.
pub proof fn law_levels_strictly_finer(schema: &PyramidSchema, level_count: u32)
    requires
        level_count >= 1,
        schema.is_standard(level_count),
    ensures
        schema.lods@.len() == level_count,
        forall|i: int| 0 <= i < level_count ==> (#[trigger] schema.lods@[i]).z_index == i,
        forall|i: int, j: int|
            0 <= i < j < level_count ==> (#[trigger] schema.lods@[j]).resolution.finer_than(
                (#[trigger] schema.lods@[i]).resolution,
            ),
{
    assert forall|i: int, j: int| 0 <= i < j < level_count implies (#[trigger] schema.lods@[j]).resolution.finer_than(
        (#[trigger] schema.lods@[i]).resolution,
    ) by {
        assert(schema.lods@[i] == standard_level(i as u32));
        assert(schema.lods@[j] == standard_level(j as u32));
        lemma_pow2_strictly_increases(i as nat, j as nat);
        let b = BASE_RESOLUTION_SCALED as int;
        let pi = pow2(i as nat) as int;
        let pj = pow2(j as nat) as int;
        assert(b * pi < b * pj) by (nonlinear_arith)
            requires
                b > 0,
                pi < pj,
        ;
    }
    assert forall|i: int| 0 <= i < level_count implies (#[trigger] schema.lods@[i]).z_index == i by {
        assert(schema.lods@[i] == standard_level(i as u32));
    }
}

} // verus!
