//! Tile definitions.

use vstd::prelude::*;

verus! {

/// The kind of tile.
#[derive(Clone, Copy, Debug, Hash, PartialEq, Eq, Structural)]
pub enum TileKind {
    /// An n-type tile.
    N,
    /// A p-type tile.
    P,
}

impl TileKind {
    /// The other kind.
    pub open spec fn spec_complement(self) -> TileKind {
        match self {
            TileKind::N => TileKind::P,
            TileKind::P => TileKind::N,
        }
    }

    /// The other kind.
    #[verifier::when_used_as_spec(spec_complement)]
    pub fn complement(self) -> (other: TileKind)
        ensures
            other == self.spec_complement(),
    {
        match self {
            TileKind::N => TileKind::P,
            TileKind::P => TileKind::N,
        }
    }
}

/// The flavor of a MOS device.
#[derive(Clone, Copy, Debug, Hash, PartialEq, Eq, Structural)]
pub enum MosKind {
    /// Nominal threshold voltage.
    Nom,
    /// Low threshold voltage.
    Lvt,
}

/// How the legs of a resistor are connected.
#[derive(Clone, Copy, Debug, Hash, PartialEq, Eq, Structural)]
pub enum ResistorConn {
    /// One after the other.
    Series,
    /// Side by side.
    Parallel,
}

/// A supply rail.
#[derive(Clone, Copy, Debug, Hash, PartialEq, Eq, Structural)]
pub enum Rail {
    /// The positive supply.
    Vdd,
    /// The ground.
    Vss,
}

/// MOS tile parameters.
#[derive(Clone, Copy, Debug, Hash, PartialEq, Eq, Structural)]
pub struct MosTileParams {
    /// The kind of MOS device.
    pub kind: TileKind,
    /// The MOS device width.
    pub w: i64,
}

impl MosTileParams {
    /// Creates a new [`MosTileParams`].
    pub fn new(kind: TileKind, w: i64) -> (params: Self)
        ensures
            params == (MosTileParams { kind, w }),
    {
        Self { kind, w }
    }
}

/// Tap tile parameters.
#[derive(Clone, Copy, Debug, Hash, PartialEq, Eq, Structural)]
pub struct TapTileParams {
    /// The kind of tap.
    pub kind: TileKind,
    /// Number of MOS devices this tap must span.
    pub mos_span: i64,
}

impl TapTileParams {
    /// Creates a new [`TapTileParams`].
    pub fn new(kind: TileKind, mos_span: i64) -> (params: Self)
        ensures
            params == (TapTileParams { kind, mos_span }),
    {
        Self { kind, mos_span }
    }

    /// The rail that a tap of this kind ties its well or substrate to: an
    /// n-tap to the positive supply, a p-tap to the ground.
    pub fn rail(&self) -> (rail: Rail)
        ensures
            rail == match self.kind {
                TileKind::N => Rail::Vdd,
                TileKind::P => Rail::Vss,
            },
    {
        match self.kind {
            TileKind::N => Rail::Vdd,
            TileKind::P => Rail::Vss,
        }
    }
}

} // verus!
