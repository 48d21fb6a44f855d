use protomap_tiles::pyramid::{
    pmtiles_schema, Crs, MapPoint, MapRect, PyramidSchema, Resolution, SchemaError, TileSchemaExt,
    VerticalDirection, BASE_RESOLUTION_SCALED, HALF_EXTENT_MICROS,
};

#[test]
fn zero_levels_fail() {
    assert_eq!(pmtiles_schema(0).err(), Some(SchemaError::NoLevels));
}

#[test]
fn levels_count_and_halve() {
    for n in [1u32, 2, 5, 16] {
        let schema = pmtiles_schema(n).unwrap();
        assert_eq!(schema.lods.len(), n as usize);
        for (i, lod) in schema.lods.iter().enumerate() {
            assert_eq!(lod.z_index, i as u32);
            assert_eq!(lod.resolution, Resolution { scaled: BASE_RESOLUTION_SCALED, halvings: i as u32 });
        }
        for w in schema.lods.windows(2) {
            let coarse = w[0].resolution.scaled as f64 / 2f64.powi(w[0].resolution.halvings as i32);
            let fine = w[1].resolution.scaled as f64 / 2f64.powi(w[1].resolution.halvings as i32);
            assert!(fine < coarse);
        }
    }
}

#[test]
fn fixed_parameters() {
    let schema = pmtiles_schema(3).unwrap();
    assert_eq!(schema.origin, MapPoint { x: -20037508342789, y: 20037508342789 });
    assert_eq!(
        schema.bounds,
        MapRect { x_min: -HALF_EXTENT_MICROS, y_min: -HALF_EXTENT_MICROS, x_max: HALF_EXTENT_MICROS, y_max: HALF_EXTENT_MICROS }
    );
    assert_eq!((schema.tile_width, schema.tile_height), (256, 256));
    assert_eq!(schema.y_direction, VerticalDirection::TopToBottom);
    assert_eq!(schema.crs, Crs::Epsg3857);
    let base = schema.lods[0].resolution.scaled as f64 * 1e-11;
    assert!((base - 156543.03392804097).abs() < 1e-6);
}

#[test]
fn trait_constructor_matches() {
    let schema = PyramidSchema::pmtiles(4);
    assert_eq!(schema.lods, pmtiles_schema(4).unwrap().lods);
}
