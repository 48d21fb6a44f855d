//! Loading one tile: locate it in the archive, fetch its bytes, decompress
//! them and decode the vector tile.
//!
//! The pipeline is a value of [`LoadState`]. Fetching and decompressing are
//! done by the caller, who hands each result back; decoding is done here.
//! Every failure is one of the three kinds of [`LoadError`].
use galileo_mvt::error::GalileoMvtError;
use galileo_mvt::MvtTile;
use crate::pyramid::{pmtiles_schema, PyramidSchema};
use pmtiles::{PmtError, TileCoord};
use vstd::arithmetic::power2::*;
use vstd::prelude::*;

verus! {

#[verifier::external_type_specification]
#[verifier::external_body]
pub struct ExMvtTile(MvtTile);

#[verifier::external_type_specification]
#[verifier::external_body]
pub struct ExGalileoMvtError(GalileoMvtError);

#[verifier::external_type_specification]
#[verifier::external_body]
pub struct ExTileCoord(TileCoord);

#[verifier::external_type_specification]
#[verifier::external_body]
pub struct ExPmtError(PmtError);

/// pmtiles' `TileCoord::new`: a coordinate exists for zoom levels up to 31,
/// with column and row below 2^zoom.
pub assume_specification[ TileCoord::new ](z: u8, x: u32, y: u32) -> (r: Result<TileCoord, PmtError>)
    ensures
        r is Ok <==> (z <= 31 && (x as nat) < pow2(z as nat) && (y as nat) < pow2(z as nat)),
;

/// What decoding `raw` gives: the name and the number of features of each
/// layer, in the order of the bytes, or nothing when the bytes do not decode.
pub uninterp spec fn mvt_layers_of(raw: Seq<u8>) -> Option<Seq<(Seq<char>, nat)>>;

/// The names and feature counts of a list of layers.
pub open spec fn layer_list(layers: Seq<(String, usize)>) -> Seq<(Seq<char>, nat)> {
    layers.map_values(|l: (String, usize)| (l.0@, l.1 as nat))
}

/// Relies on galileo_mvt's `MvtTile::decode` (recoverable errors skipped):
/// whether the bytes decode, and the layers it yields with the number of
/// features of each, depend on the bytes alone.
#[verifier::external_body]
fn decode_mvt(raw: &[u8]) -> (r: Result<(MvtTile, Vec<(String, usize)>), GalileoMvtError>)
    ensures
        match r {
            Ok((_, layers)) => mvt_layers_of(raw@) == Some(layer_list(layers@)),
            Err(_) => mvt_layers_of(raw@) is None,
        },
{
    match MvtTile::decode(raw, true) {
        Ok(tile) => {
            let layers = tile.layers.iter().map(|l| (l.name.clone(), l.features.len())).collect();
            Ok((tile, layers))
        },
        Err(e) => Err(e),
    }
}

/// Why a tile could not be loaded.
#[derive(Clone, Copy, Debug, PartialEq, Eq, Structural)]
pub enum LoadError {
    /// The archive could not be reached; a later attempt may succeed.
    Network,
    /// The archive holds no tile at this index.
    DoesNotExist,
    /// The tile's bytes are corrupt or of another format.
    Decoding,
}

/// A tile index of the pyramid: zoom level, column and row.
#[derive(Clone, Copy, Debug, PartialEq, Eq, Structural)]
pub struct TileIndex {
    pub z: u32,
    pub x: i32,
    pub y: i32,
}

/// A tile's coordinate in the archive: zoom level, column and row.
#[derive(Clone, Copy, Debug, PartialEq, Eq, Structural)]
pub struct ArchiveCoord {
    pub z: u8,
    pub x: u32,
    pub y: u32,
}

/// The archive coordinate of an addressable index: the same zoom level,
/// column and row.
pub open spec fn coord_of(index: TileIndex) -> ArchiveCoord {
    ArchiveCoord { z: index.z as u8, x: index.x as u32, y: index.y as u32 }
}

/// The index names a tile that an archive can hold.
pub open spec fn addressable(index: TileIndex) -> bool {
    &&& index.z <= 31
    &&& 0 <= index.x < pow2(index.z as nat)
    &&& 0 <= index.y < pow2(index.z as nat)
}

/// What fetching a tile from the archive gave.
#[derive(Clone, Debug)]
pub enum FetchOutcome {
    /// The tile's compressed bytes.
    Bytes(Vec<u8>),
    /// The archive has no tile there.
    Absent,
    /// The archive could not be read.
    TransportFailure,
}

/// A decoded tile with the name and feature count of each of its layers.
pub struct DecodedTile {
    pub tile: MvtTile,
    pub layers: Vec<(String, usize)>,
}

/// Where the loading of one tile stands.
pub enum LoadState {
    /// Waiting for the tile's bytes at this coordinate.
    Fetching(ArchiveCoord),
    /// Waiting for these compressed bytes to be decompressed.
    Decompressing(Vec<u8>),
    /// These decompressed bytes are to be decoded.
    Decoding(Vec<u8>),
    /// The tile is loaded.
    Done(DecodedTile),
    /// The tile could not be loaded.
    Failed(LoadError),
}

/// The state after fetching.
pub open spec fn after_fetch(outcome: FetchOutcome) -> LoadState {
    match outcome {
        FetchOutcome::Bytes(bytes) => LoadState::Decompressing(bytes),
        FetchOutcome::Absent => LoadState::Failed(LoadError::DoesNotExist),
        FetchOutcome::TransportFailure => LoadState::Failed(LoadError::Network),
    }
}

/// The state after decompressing: the raw bytes, or nothing when the
/// compressed bytes were malformed.
pub open spec fn after_decompress(raw: Option<Vec<u8>>) -> LoadState {
    match raw {
        Option::Some(bytes) => LoadState::Decoding(bytes),
        Option::None => LoadState::Failed(LoadError::Decoding),
    }
}

/// No two layers share a name.
pub open spec fn distinct_names(layers: Seq<(Seq<char>, nat)>) -> bool {
    forall|i: int, j: int| 0 <= i < j < layers.len() ==> (#[trigger] layers[i]).0 != (#[trigger] layers[j]).0
}

/// The bytes decode to a tile whose layer names are unique: a tile maps
/// each layer name to one layer.
pub open spec fn well_formed_tile(raw: Seq<u8>) -> bool {
    mvt_layers_of(raw) is Some && distinct_names(mvt_layers_of(raw)->Some_0)
}

/// `r` is what decoding `raw` gives: the tile with its layers when the bytes
/// form a well-formed tile, a decoding failure otherwise.
pub open spec fn decoded_as(raw: Seq<u8>, r: LoadState) -> bool {
    if well_formed_tile(raw) {
        r is Done && layer_list(r->Done_0.layers@) == mvt_layers_of(raw)->Some_0
    } else {
        r == LoadState::Failed(LoadError::Decoding)
    }
}

/// Whether two of the layers share a name.
fn has_duplicate_name(layers: &Vec<(String, usize)>) -> (r: bool)
    ensures
        r == !distinct_names(layer_list(layers@)),
{
    let mut i: usize = 0;
    while i < layers.len()
        invariant
            i <= layers@.len(),
            forall|a: int, b: int| 0 <= a < i && a < b < layers@.len() ==> (#[trigger] layers@[a]).0@ != (#[trigger] layers@[b]).0@,
        decreases layers@.len() - i,
    {
        let mut j: usize = i + 1;
        while j < layers.len()
            invariant
                i < layers@.len(),
                i + 1 <= j <= layers@.len(),
                forall|a: int, b: int| 0 <= a < i && a < b < layers@.len() ==> (#[trigger] layers@[a]).0@ != (#[trigger] layers@[b]).0@,
                forall|b: int| i < b < j ==> layers@[i as int].0@ != (#[trigger] layers@[b]).0@,
            decreases layers@.len() - j,
        {
            if layers[i].0 == layers[j].0 {
                proof {
                    let l = layer_list(layers@);
                    assert(l[i as int].0 == l[j as int].0);
                }
                return true;
            }
            j = j + 1;
        }
        i = i + 1;
    }
    proof {
        let l = layer_list(layers@);
        assert forall|a: int, b: int| 0 <= a < b < l.len() implies (#[trigger] l[a]).0 != (#[trigger] l[b]).0 by {
            assert(layers@[a].0@ != layers@[b].0@);
        }
    }
    false
}

/// Decodes decompressed tile bytes; bytes that do not decode, or whose layers
/// do not have unique names, are a decoding failure.
pub fn decode_tile(raw: &[u8]) -> (r: Result<DecodedTile, LoadError>)
    ensures
        well_formed_tile(raw@) ==> r is Ok && layer_list(r->Ok_0.layers@) == mvt_layers_of(raw@)->Some_0,
        !well_formed_tile(raw@) ==> r == Result::<DecodedTile, LoadError>::Err(LoadError::Decoding),
{
    match decode_mvt(raw) {
        Ok((tile, layers)) => {
            if has_duplicate_name(&layers) {
                Err(LoadError::Decoding)
            } else {
                Ok(DecodedTile { tile, layers })
            }
        },
        Err(_) => Err(LoadError::Decoding),
    }
}

/// The archive coordinate of a tile index; an index that no archive can
/// hold does not exist.
pub fn locate(index: TileIndex) -> (r: Result<ArchiveCoord, LoadError>)
    ensures
        addressable(index) ==> r == Result::<ArchiveCoord, LoadError>::Ok(coord_of(index)),
        !addressable(index) ==> r == Result::<ArchiveCoord, LoadError>::Err(LoadError::DoesNotExist),
{
    if index.z > 31 || index.x < 0 || index.y < 0 {
        return Err(LoadError::DoesNotExist);
    }
    match TileCoord::new(index.z as u8, index.x as u32, index.y as u32) {
        Ok(_) => Ok(ArchiveCoord { z: index.z as u8, x: index.x as u32, y: index.y as u32 }),
        Err(_) => Err(LoadError::DoesNotExist),
    }
}

impl LoadState {
    /// The first state of loading `index`.
    pub fn start(index: TileIndex) -> (r: LoadState)
        ensures
            addressable(index) ==> r == LoadState::Fetching(coord_of(index)),
            !addressable(index) ==> r == LoadState::Failed(LoadError::DoesNotExist),
    {
        match locate(index) {
            Ok(coord) => LoadState::Fetching(coord),
            Err(e) => LoadState::Failed(e),
        }
    }

    /// The state once the fetch has given `outcome`; any other state than
    /// `Fetching` is kept.
    pub fn on_fetched(self, outcome: FetchOutcome) -> (r: LoadState)
        ensures
            self is Fetching ==> r == after_fetch(outcome),
            !(self is Fetching) ==> r == self,
    {
        match self {
            LoadState::Fetching(_) => match outcome {
                FetchOutcome::Bytes(bytes) => LoadState::Decompressing(bytes),
                FetchOutcome::Absent => LoadState::Failed(LoadError::DoesNotExist),
                FetchOutcome::TransportFailure => LoadState::Failed(LoadError::Network),
            },
            other => other,
        }
    }

    /// The state once decompression has given `raw` (nothing for malformed
    /// input); any other state than `Decompressing` is kept.
    pub fn on_decompressed(self, raw: Option<Vec<u8>>) -> (r: LoadState)
        ensures
            self is Decompressing ==> r == after_decompress(raw),
            !(self is Decompressing) ==> r == self,
    {
        match self {
            LoadState::Decompressing(_) => match raw {
                Option::Some(bytes) => LoadState::Decoding(bytes),
                Option::None => LoadState::Failed(LoadError::Decoding),
            },
            other => other,
        }
    }

    /// Decodes the bytes of a `Decoding` state; any other state is kept.
    pub fn decode(self) -> (r: LoadState)
        ensures
            self is Decoding ==> decoded_as(self->Decoding_0@, r),
            !(self is Decoding) ==> r == self,
    {
        match self {
            LoadState::Decoding(raw) => match decode_tile(raw.as_slice()) {
                Ok(tile) => LoadState::Done(tile),
                Err(e) => LoadState::Failed(e),
            },
            other => other,
        }
    }

    /// The coordinate to fetch, while the state is `Fetching`.
    pub fn fetch_target(&self) -> (r: Option<ArchiveCoord>)
        ensures
            r is Some <==> self is Fetching,
            self is Fetching ==> r == Some(self->Fetching_0),
    {
        match self {
            LoadState::Fetching(coord) => Some(*coord),
            _ => None,
        }
    }

    /// The outcome once the pipeline has ended, nothing before.
    pub fn finish(self) -> (r: Option<Result<DecodedTile, LoadError>>)
        ensures
            self is Done <==> (r is Some && r->Some_0 is Ok),
            self is Failed <==> (r is Some && r->Some_0 is Err),
            self is Failed ==> r == Some(Result::<DecodedTile, LoadError>::Err(self->Failed_0)),
            self is Done ==> r == Some(Result::<DecodedTile, LoadError>::Ok(self->Done_0)),
    {
        match self {
            LoadState::Done(tile) => Some(Ok(tile)),
            LoadState::Failed(e) => Some(Err(e)),
            _ => None,
        }
    }
}

/// Decoding is a function of the bytes: decoding equal bytes twice either
/// fails both times or gives the same layers, with the same feature counts,
/// in the same order.
pub proof fn law_decoding_is_deterministic(raw1: Seq<u8>, raw2: Seq<u8>, r1: LoadState, r2: LoadState)
    requires
        raw1 == raw2,
        decoded_as(raw1, r1),
        decoded_as(raw2, r2),
    ensures
        r1 is Done <==> r2 is Done,
        r1 is Done ==> layer_list(r1->Done_0.layers@) == layer_list(r2->Done_0.layers@),
        !(r1 is Done) ==> r1 == r2,
{
}

/// The failure kinds are kept apart: an absent tile does not exist, a
/// transport failure is a network failure, and malformed compressed bytes or
/// tile bytes that are malformed (or repeat a layer name) are decoding
/// failures; the three kinds differ.
pub proof fn law_failure_kinds(raw: Seq<u8>, r: LoadState)
    requires
        !well_formed_tile(raw),
        decoded_as(raw, r),
    ensures
        after_fetch(FetchOutcome::Absent) == LoadState::Failed(LoadError::DoesNotExist),
        after_fetch(FetchOutcome::TransportFailure) == LoadState::Failed(LoadError::Network),
        after_decompress(Option::None) == LoadState::Failed(LoadError::Decoding),
        r == LoadState::Failed(LoadError::Decoding),
        LoadError::Network != LoadError::DoesNotExist,
        LoadError::Network != LoadError::Decoding,
        LoadError::DoesNotExist != LoadError::Decoding,
{
}

/// How an archive compresses its tiles.
#[derive(Clone, Copy, Debug, PartialEq, Eq, Structural)]
pub enum TileCompression {
    Unknown,
    Uncompressed,
    Gzip,
    Brotli,
    Zstd,
}

/// The format of an archive's tiles.
#[derive(Clone, Copy, Debug, PartialEq, Eq, Structural)]
pub enum TileFormat {
    Unknown,
    Mvt,
    Png,
    Jpeg,
    Webp,
    Avif,
    Other,
}

/// What an archive's header says of its tiles.
#[derive(Clone, Copy, Debug, PartialEq, Eq, Structural)]
pub struct ArchiveHeader {
    pub tile_compression: TileCompression,
    pub tile_type: TileFormat,
    pub min_zoom: u8,
    pub max_zoom: u8,
}

/// Why an archive cannot be served.
#[derive(Clone, Copy, Debug, PartialEq, Eq, Structural)]
pub enum ArchiveError {
    /// Tiles are not gzip-compressed.
    UnsupportedCompression,
    /// Tiles are not vector tiles.
    UnsupportedTileType,
    /// The archive does not start at zoom level zero.
    MissingLowZooms,
    /// The archive has no zoom level to build a pyramid from.
    NoLevels,
}

/// The first reason, if any, why an archive with this header cannot be served.
pub open spec fn header_problem(h: ArchiveHeader) -> Option<ArchiveError> {
    if h.tile_compression != TileCompression::Gzip {
        Option::Some(ArchiveError::UnsupportedCompression)
    } else if h.tile_type != TileFormat::Mvt {
        Option::Some(ArchiveError::UnsupportedTileType)
    } else if h.min_zoom != 0 {
        Option::Some(ArchiveError::MissingLowZooms)
    } else {
        Option::None
    }
}

/// Checks that the archive holds gzip-compressed vector tiles from zoom
/// level zero on.
pub fn check_header(header: &ArchiveHeader) -> (r: Result<(), ArchiveError>)
    ensures
        match header_problem(*header) {
            Option::Some(e) => r == Result::<(), ArchiveError>::Err(e),
            Option::None => r is Ok,
        },
{
    if header.tile_compression != TileCompression::Gzip {
        Err(ArchiveError::UnsupportedCompression)
    } else if header.tile_type != TileFormat::Mvt {
        Err(ArchiveError::UnsupportedTileType)
    } else if header.min_zoom != 0 {
        Err(ArchiveError::MissingLowZooms)
    } else {
        Ok(())
    }
}

/// The pyramid that serves an archive: one level for each zoom level below
/// the archive's largest, once the header has been checked.
pub fn archive_schema(header: &ArchiveHeader) -> (r: Result<PyramidSchema, ArchiveError>)
    ensures
        match header_problem(*header) {
            Option::Some(e) => r == Result::<PyramidSchema, ArchiveError>::Err(e),
            Option::None => if header.max_zoom == 0 {
                r == Result::<PyramidSchema, ArchiveError>::Err(ArchiveError::NoLevels)
            } else {
                r is Ok && r->Ok_0.is_standard(header.max_zoom as u32)
            },
        },
{
    match check_header(header) {
        Err(e) => Err(e),
        Ok(()) => match pmtiles_schema(header.max_zoom as u32) {
            Ok(schema) => Ok(schema),
            Err(_) => Err(ArchiveError::NoLevels),
        },
    }
}

} // verus!
