use protomap_tiles::loader::{
    archive_schema, check_header, ArchiveCoord, decode_tile, locate, ArchiveError, ArchiveHeader, FetchOutcome,
    LoadError, LoadState, TileCompression, TileFormat, TileIndex,
};

/// A vector tile whose layers have the given names, each holding one point
/// feature.
fn tile_bytes(names: &[&str]) -> Vec<u8> {
    let feature: Vec<u8> = vec![0x18, 0x01, 0x22, 0x03, 0x09, 0x32, 0x22];
    let mut tile: Vec<u8> = Vec::new();
    for name in names {
        let mut layer: Vec<u8> = vec![0x78, 0x02, 0x0a, name.len() as u8];
        layer.extend_from_slice(name.as_bytes());
        layer.push(0x12);
        layer.push(feature.len() as u8);
        layer.extend_from_slice(&feature);
        layer.extend_from_slice(&[0x28, 0x80, 0x20]);
        tile.push(0x1a);
        tile.push(layer.len() as u8);
        tile.extend_from_slice(&layer);
    }
    tile
}

/// A vector tile with one layer, "water", holding one point feature.
fn water_tile_bytes() -> Vec<u8> {
    let feature: Vec<u8> = vec![0x18, 0x01, 0x22, 0x03, 0x09, 0x32, 0x22];
    let mut layer: Vec<u8> = vec![0x78, 0x02, 0x0a, 0x05];
    layer.extend_from_slice(b"water");
    layer.push(0x12);
    layer.push(feature.len() as u8);
    layer.extend_from_slice(&feature);
    layer.extend_from_slice(&[0x28, 0x80, 0x20]);
    let mut tile: Vec<u8> = vec![0x1a, layer.len() as u8];
    tile.extend_from_slice(&layer);
    tile
}

fn fetching() -> LoadState {
    LoadState::start(TileIndex { z: 2, x: 3, y: 1 })
}

fn failure(state: LoadState) -> Option<LoadError> {
    match state.finish() {
        Some(Err(e)) => Some(e),
        _ => None,
    }
}

#[test]
fn absent_tile_does_not_exist() {
    let state = fetching().on_fetched(FetchOutcome::Absent);
    assert_eq!(failure(state), Some(LoadError::DoesNotExist));
}

#[test]
fn transport_failure_is_network() {
    let state = fetching().on_fetched(FetchOutcome::TransportFailure);
    assert_eq!(failure(state), Some(LoadError::Network));
}

#[test]
fn corrupt_compressed_payload_is_decoding() {
    let state = fetching().on_fetched(FetchOutcome::Bytes(vec![1, 2, 3]));
    assert!(matches!(state, LoadState::Decompressing(_)));
    let state = state.on_decompressed(None);
    assert_eq!(failure(state), Some(LoadError::Decoding));
}

#[test]
fn corrupt_tile_structure_is_decoding() {
    let state = fetching()
        .on_fetched(FetchOutcome::Bytes(vec![1, 2, 3]))
        .on_decompressed(Some(vec![0xff, 0xff, 0xff, 0x07]));
    assert!(matches!(state, LoadState::Decoding(_)));
    assert_eq!(failure(state.decode()), Some(LoadError::Decoding));
    assert!(matches!(decode_tile(&[]), Err(LoadError::Decoding)));
}

#[test]
fn well_formed_tile_is_done() {
    let state = fetching()
        .on_fetched(FetchOutcome::Bytes(vec![9]))
        .on_decompressed(Some(water_tile_bytes()))
        .decode();
    match state.finish() {
        Some(Ok(tile)) => {
            assert_eq!(tile.layers, vec![("water".to_string(), 1usize)]);
            assert_eq!(tile.tile.layers.len(), 1);
        }
        _ => panic!("tile did not load"),
    }
}

#[test]
fn decoding_twice_gives_same_layers() {
    let bytes = water_tile_bytes();
    let a = decode_tile(&bytes).ok().unwrap();
    let b = decode_tile(&bytes).ok().unwrap();
    assert_eq!(a.layers, b.layers);
}

#[test]
fn unaddressable_index_does_not_exist() {
    assert_eq!(locate(TileIndex { z: 2, x: 4, y: 0 }).err(), Some(LoadError::DoesNotExist));
    assert_eq!(locate(TileIndex { z: 2, x: 0, y: -1 }).err(), Some(LoadError::DoesNotExist));
    assert_eq!(locate(TileIndex { z: 40, x: 0, y: 0 }).err(), Some(LoadError::DoesNotExist));
    assert!(locate(TileIndex { z: 0, x: 0, y: 0 }).is_ok());
    assert_eq!(failure(LoadState::start(TileIndex { z: 1, x: 2, y: 0 })), Some(LoadError::DoesNotExist));
}

#[test]
fn fetch_target_only_while_fetching() {
    let state = fetching();
    let coord = state.fetch_target().unwrap();
    assert_eq!(coord, ArchiveCoord { z: 2, x: 3, y: 1 });
    let state = state.on_fetched(FetchOutcome::Absent);
    assert!(state.fetch_target().is_none());
}

#[test]
fn events_out_of_turn_keep_state() {
    let state = fetching().on_decompressed(Some(vec![1])).decode();
    assert!(matches!(state, LoadState::Fetching(_)));
    assert!(state.finish().is_none());
    let failed = fetching().on_fetched(FetchOutcome::Absent).on_fetched(FetchOutcome::Bytes(vec![1]));
    assert_eq!(failure(failed), Some(LoadError::DoesNotExist));
}

fn header(c: TileCompression, t: TileFormat, min_zoom: u8, max_zoom: u8) -> ArchiveHeader {
    ArchiveHeader { tile_compression: c, tile_type: t, min_zoom, max_zoom }
}

#[test]
fn archive_header_checks() {
    assert_eq!(check_header(&header(TileCompression::Gzip, TileFormat::Mvt, 0, 15)), Ok(()));
    assert_eq!(check_header(&header(TileCompression::Brotli, TileFormat::Mvt, 0, 15)), Err(ArchiveError::UnsupportedCompression));
    assert_eq!(check_header(&header(TileCompression::Gzip, TileFormat::Png, 0, 15)), Err(ArchiveError::UnsupportedTileType));
    assert_eq!(check_header(&header(TileCompression::Gzip, TileFormat::Mvt, 2, 15)), Err(ArchiveError::MissingLowZooms));
    assert_eq!(archive_schema(&header(TileCompression::Gzip, TileFormat::Mvt, 0, 0)).err(), Some(ArchiveError::NoLevels));
    assert_eq!(archive_schema(&header(TileCompression::Gzip, TileFormat::Mvt, 0, 15)).unwrap().lods.len(), 15);
}

#[test]
fn repeated_layer_name_is_decoding() {
    assert!(matches!(decode_tile(&tile_bytes(&["water", "roads", "water"])), Err(LoadError::Decoding)));
    let ok = decode_tile(&tile_bytes(&["water", "roads"])).ok().unwrap();
    assert_eq!(ok.layers, vec![("water".to_string(), 1usize), ("roads".to_string(), 1usize)]);
    assert_eq!(tile_bytes(&["water"]), water_tile_bytes());
}

#[test]
fn locate_keeps_zoom_column_and_row() {
    assert_eq!(locate(TileIndex { z: 5, x: 7, y: 20 }), Ok(ArchiveCoord { z: 5, x: 7, y: 20 }));
    assert_eq!(locate(TileIndex { z: 31, x: 0, y: 1 }), Ok(ArchiveCoord { z: 31, x: 0, y: 1 }));
}
