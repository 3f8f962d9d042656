//! SKY130-specific implementations.

use vstd::prelude::*;
use crate::tiles::{TapTileParams, TileKind};

verus! {

/// A SKY130 UCIe implementation.
#[derive(Clone, Copy, Debug, Hash, PartialEq, Eq, Structural)]
pub struct Sky130Ucie;

/// The spacing between a StrongARM latch and its output buffers, in
/// routing grid coordinates.
pub const BUFFER_SPACING: i64 = 3;

/// The number of fingers of a MOS tile.
pub const MOS_FINGERS: i64 = 2;

/// The number of rows of contacts of a tap tile.
pub const TAP_ROWS: i64 = 2;

/// A terminal of a transistor that a diffusion contact leads to.
#[derive(Clone, Copy, Debug, Hash, PartialEq, Eq, Structural)]
pub enum Diffusion {
    /// The source.
    Source,
    /// The drain.
    Drain,
}

/// The terminal behind a diffusion contact of a MOS tile, the contacts
/// counted across the fingers: sources and drains alternate, and the outer
/// contacts are sources.
pub fn contact_terminal(contact: usize) -> (terminal: Diffusion)
    ensures
        terminal == if contact % 2 == 0 {
            Diffusion::Source
        } else {
            Diffusion::Drain
        },
{
    if contact % 2 == 0 {
        Diffusion::Source
    } else {
        Diffusion::Drain
    }
}

/// The number of columns of contacts of a tap beside `mos_span` MOS tiles:
/// four for each tile, less one.
pub open spec fn tap_columns(mos_span: int) -> int {
    4 * mos_span - 1
}

/// A two-finger MOS tile of channel length `l`; the lengths on offer are
/// those of the process, which is why their type is left open.
#[derive(Clone, Copy, Debug, Hash, PartialEq, Eq)]
pub struct TwoFingerMosTile<L> {
    /// The width.
    pub w: i64,
    /// The channel length.
    pub l: L,
    /// The kind of tile.
    pub kind: TileKind,
}

impl<L> TwoFingerMosTile<L> {
    /// Creates a new [`TwoFingerMosTile`].
    pub fn new(w: i64, l: L, kind: TileKind) -> (tile: Self)
        ensures
            tile.w == w,
            tile.l == l,
            tile.kind == kind,
    {
        Self { w, l, kind }
    }
}

/// A tile containing a N/P tap for biasing an N-well or P-substrate.
/// These can be used to connect to the body terminals of MOS devices.
#[derive(Clone, Copy, Debug, Hash, PartialEq, Eq, Structural)]
pub struct TapTile(pub TapTileParams);

impl TapTile {
    /// Creates a new [`TapTile`].
    pub fn new(params: TapTileParams) -> (tile: Self)
        ensures
            tile.0 == params,
    {
        Self(params)
    }

    /// The name of the tile: `ntap_tile` or `ptap_tile`.
    pub fn name(&self) -> (name: &'static str)
        ensures
            self.0.kind == TileKind::N ==> name@ == "ntap_tile"@,
            self.0.kind == TileKind::P ==> name@ == "ptap_tile"@,
    {
        match self.0.kind {
            TileKind::N => "ntap_tile",
            TileKind::P => "ptap_tile",
        }
    }

    /// The number of columns of contacts, or `None` where four times the
    /// span, or that less one, cannot be represented.
    pub fn columns(&self) -> (columns: Option<i64>)
        ensures
            columns is Some <==> i64::MIN < 4 * self.0.mos_span <= i64::MAX,
            columns matches Some(n) ==> n == tap_columns(self.0.mos_span as int),
    {
        match self.0.mos_span.checked_mul(4) {
            Some(wide) => wide.checked_sub(1),
            None => None,
        }
    }
}

} // verus!
