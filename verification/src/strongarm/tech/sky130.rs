//! SKY130 tiles of the StrongARM latch.

use vstd::prelude::*;
use crate::tech::sky130::tap_columns;
use crate::tiles::{TapTileParams, TileKind};

verus! {

/// The SKY130 implementation of the StrongARM latch.
#[derive(Clone, Copy, Debug, Hash, PartialEq, Eq, Structural)]
pub struct Sky130;

/// A two-finger MOS tile of channel length `l`; the lengths on offer are
/// those of the process, which is why their type is left open.
#[derive(Clone, Copy, Debug, Hash, PartialEq, Eq)]
pub struct TwoFingerMosTile<L> {
    /// The width.
    pub w: i64,
    /// The channel length.
    pub l: L,
    /// The kind of tile.
    pub kind: TileKind,
}

impl<L> TwoFingerMosTile<L> {
    /// Creates a new [`TwoFingerMosTile`].
    pub fn new(w: i64, l: L, kind: TileKind) -> (tile: Self)
        ensures
            tile.w == w,
            tile.l == l,
            tile.kind == kind,
    {
        Self { w, l, kind }
    }

    /// Creates a p-type [`TwoFingerMosTile`].
    pub fn pmos(w: i64, l: L) -> (tile: Self)
        ensures
            tile.w == w,
            tile.l == l,
            tile.kind == TileKind::P,
    {
        Self::new(w, l, TileKind::P)
    }

    /// Creates an n-type [`TwoFingerMosTile`].
    pub fn nmos(w: i64, l: L) -> (tile: Self)
        ensures
            tile.w == w,
            tile.l == l,
            tile.kind == TileKind::N,
    {
        Self::new(w, l, TileKind::N)
    }
}

/// A tile containing a N/P tap for biasing an N-well or P-substrate.
/// These can be used to connect to the body terminals of MOS devices.
#[derive(Clone, Copy, Debug, Hash, PartialEq, Eq, Structural)]
pub struct TapTile(pub TapTileParams);

impl TapTile {
    /// Creates a new [`TapTile`].
    pub fn new(params: TapTileParams) -> (tile: Self)
        ensures
            tile.0 == params,
    {
        Self(params)
    }

    /// The name of the tile: `ntap_tile` or `ptap_tile`.
    pub fn name(&self) -> (name: &'static str)
        ensures
            self.0.kind == TileKind::N ==> name@ == "ntap_tile"@,
            self.0.kind == TileKind::P ==> name@ == "ptap_tile"@,
    {
        match self.0.kind {
            TileKind::N => "ntap_tile",
            TileKind::P => "ptap_tile",
        }
    }

    /// The number of columns of contacts, or `None` where four times the
    /// span, or that less one, cannot be represented.
    pub fn columns(&self) -> (columns: Option<i64>)
        ensures
            columns is Some <==> i64::MIN < 4 * self.0.mos_span <= i64::MAX,
            columns matches Some(n) ==> n == tap_columns(self.0.mos_span as int),
    {
        crate::tech::sky130::TapTile::new(self.0).columns()
    }
}

} // verus!
