//! Buffer layout generators.

use vstd::prelude::*;
use std::marker::PhantomData;
use crate::tiles::{MosKind, MosTileParams, TapTileParams, TileKind};

verus! {

/// The parameters of the [`Inverter`] layout generator.
#[derive(Clone, Copy, Debug, Hash, PartialEq, Eq, Structural)]
pub struct InverterParams {
    /// The NMOS device flavor.
    pub nmos_kind: MosKind,
    /// The PMOS device flavor.
    pub pmos_kind: MosKind,
    /// The width of the NMOS.
    pub nmos_w: i64,
    /// The width of the PMOS.
    pub pmos_w: i64,
}

impl InverterParams {
    /// The tile of the pull-down transistor.
    pub fn nmos_tile(&self) -> (tile: MosTileParams)
        ensures
            tile == (MosTileParams { kind: TileKind::N, w: self.nmos_w }),
    {
        MosTileParams::new(TileKind::N, self.nmos_w)
    }

    /// The tile of the pull-up transistor.
    pub fn pmos_tile(&self) -> (tile: MosTileParams)
        ensures
            tile == (MosTileParams { kind: TileKind::P, w: self.pmos_w }),
    {
        MosTileParams::new(TileKind::P, self.pmos_w)
    }
}

/// The tap of the given kind beside the one transistor of an inverter.
pub fn inverter_tap(kind: TileKind) -> (tap: TapTileParams)
    ensures
        tap == (TapTileParams { kind, mos_span: 1 }),
{
    TapTileParams::new(kind, 1)
}

/// An inverter, laid out with the tiles of the technology `T`.
#[derive(Debug, Hash, PartialEq, Eq)]
pub struct Inverter<T>(InverterParams, PhantomData<T>);

impl<T> View for Inverter<T> {
    type V = InverterParams;

    /// The parameters.
    closed spec fn view(&self) -> InverterParams {
        self.0
    }
}

impl<T> Inverter<T> {
    /// Creates a new [`Inverter`].
    pub fn new(params: InverterParams) -> (inverter: Self)
        ensures
            inverter@ == params,
    {
        Self(params, PhantomData)
    }

    /// The parameters.
    pub fn params(&self) -> (params: InverterParams)
        ensures
            params == self@,
    {
        self.0
    }
}

impl<T> Clone for Inverter<T> {
    fn clone(&self) -> (copy: Self)
        ensures
            copy@ == self@,
    {
        Self(self.0, PhantomData)
    }
}

impl<T> Copy for Inverter<T> {

}

/// A buffer: two inverters in a row, laid out with the tiles of the
/// technology `T`.
#[derive(Debug, Hash, PartialEq, Eq)]
pub struct Buffer<T>(InverterParams, PhantomData<T>);

impl<T> View for Buffer<T> {
    type V = InverterParams;

    /// The parameters of each of the two inverters.
    closed spec fn view(&self) -> InverterParams {
        self.0
    }
}

impl<T> Buffer<T> {
    /// Creates a new [`Buffer`].
    pub fn new(params: InverterParams) -> (buffer: Self)
        ensures
            buffer@ == params,
    {
        Self(params, PhantomData)
    }

    /// The parameters of each of the two inverters.
    pub fn params(&self) -> (params: InverterParams)
        ensures
            params == self@,
    {
        self.0
    }

    /// One of the two inverters of the buffer.
    pub fn stage(&self) -> (inverter: Inverter<T>)
        ensures
            inverter@ == self@,
    {
        Inverter::new(self.0)
    }
}

impl<T> Clone for Buffer<T> {
    fn clone(&self) -> (copy: Self)
        ensures
            copy@ == self@,
    {
        Self(self.0, PhantomData)
    }
}

impl<T> Copy for Buffer<T> {

}

} // verus!
