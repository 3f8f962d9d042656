//! StrongARM latch layout generators.

use vstd::prelude::*;
use std::marker::PhantomData;
use crate::buffer::{Inverter, InverterParams};
use crate::tiles::{MosKind, MosTileParams, Rail, TapTileParams, TileKind};

pub mod tb;
pub mod tech;

verus! {

/// The input pair device kind of the comparator.
#[derive(Clone, Copy, Debug, Hash, PartialEq, Eq, Structural)]
pub enum InputKind {
    /// A comparator with an NMOS input pair.
    N,
    /// A comparator with a PMOS input pair.
    P,
}

impl InputKind {
    /// Returns true if the input kind is NMOS.
    pub fn is_n(&self) -> (n: bool)
        ensures
            n == (*self == InputKind::N),
    {
        matches!(self, InputKind::N)
    }

    /// Returns true if the input kind is PMOS.
    pub fn is_p(&self) -> (p: bool)
        ensures
            p == (*self == InputKind::P),
    {
        matches!(self, InputKind::P)
    }

    /// The kind of tile that the input pair is made of.
    pub open spec fn spec_tile_kind(self) -> TileKind {
        match self {
            InputKind::N => TileKind::N,
            InputKind::P => TileKind::P,
        }
    }

    /// The kind of tile that the input pair is made of.
    #[verifier::when_used_as_spec(spec_tile_kind)]
    pub fn tile_kind(self) -> (kind: TileKind)
        ensures
            kind == self.spec_tile_kind(),
    {
        match self {
            InputKind::N => TileKind::N,
            InputKind::P => TileKind::P,
        }
    }
}

/// The parameters of the [`StrongArm`] layout generator.
#[derive(Clone, Copy, Debug, Hash, PartialEq, Eq, Structural)]
pub struct StrongArmParams {
    /// The NMOS device flavor.
    pub nmos_kind: MosKind,
    /// The PMOS device flavor.
    pub pmos_kind: MosKind,
    /// The width of one half of the tail MOS device.
    pub half_tail_w: i64,
    /// The width of an input pair MOS device.
    pub input_pair_w: i64,
    /// The width of the inverter MOS devices connected to the input pair.
    pub inv_input_w: i64,
    /// The width of the inverter MOS devices connected to the precharge devices.
    pub inv_precharge_w: i64,
    /// The width of the precharge MOS devices.
    pub precharge_w: i64,
    /// The kind of the input pair MOS devices.
    pub input_kind: InputKind,
}

/// The groups of devices of one half of a StrongARM latch, each a row of
/// its layout.
#[derive(Clone, Copy, Debug, Hash, PartialEq, Eq, Structural)]
pub enum StrongArmRow {
    /// The precharge devices of the outputs.
    PrechargeOutput,
    /// The precharge devices of the drains of the input pair.
    PrechargeInput,
    /// The inverter devices on the side of the precharge devices.
    InvPrecharge,
    /// The inverter devices on the side of the input pair.
    InvInput,
    /// The input pair.
    InputPair,
    /// The tail.
    Tail,
}

/// The rows of one half of a latch from the n-tap downwards, for an NMOS
/// input pair.
pub open spec fn rows_below_ntap() -> Seq<StrongArmRow> {
    seq![
        StrongArmRow::PrechargeOutput,
        StrongArmRow::PrechargeInput,
        StrongArmRow::InvPrecharge,
        StrongArmRow::InvInput,
        StrongArmRow::InputPair,
        StrongArmRow::Tail,
    ]
}

impl StrongArmParams {
    /// Whether a row is made of devices of the kind of the input pair; the
    /// others are of the complementary kind.
    pub open spec fn on_input_side(row: StrongArmRow) -> bool {
        row == StrongArmRow::InvInput || row == StrongArmRow::InputPair || row
            == StrongArmRow::Tail
    }

    /// The width of the devices of a row.
    pub open spec fn row_width(&self, row: StrongArmRow) -> i64 {
        match row {
            StrongArmRow::PrechargeOutput => self.precharge_w,
            StrongArmRow::PrechargeInput => self.precharge_w,
            StrongArmRow::InvPrecharge => self.inv_precharge_w,
            StrongArmRow::InvInput => self.inv_input_w,
            StrongArmRow::InputPair => self.input_pair_w,
            StrongArmRow::Tail => self.half_tail_w,
        }
    }

    /// The tile of the devices of a row.
    pub fn row_tile(&self, row: StrongArmRow) -> (tile: MosTileParams)
        ensures
            tile.w == self.row_width(row),
            tile.kind == if Self::on_input_side(row) {
                self.input_kind.spec_tile_kind()
            } else {
                self.input_kind.spec_tile_kind().spec_complement()
            },
    {
        let input = self.input_kind.tile_kind();
        match row {
            StrongArmRow::PrechargeOutput => MosTileParams::new(
                input.complement(),
                self.precharge_w,
            ),
            StrongArmRow::PrechargeInput => MosTileParams::new(
                input.complement(),
                self.precharge_w,
            ),
            StrongArmRow::InvPrecharge => MosTileParams::new(
                input.complement(),
                self.inv_precharge_w,
            ),
            StrongArmRow::InvInput => MosTileParams::new(input, self.inv_input_w),
            StrongArmRow::InputPair => MosTileParams::new(input, self.input_pair_w),
            StrongArmRow::Tail => MosTileParams::new(input, self.half_tail_w),
        }
    }

    /// The flavor of the devices of a row: that of the NMOS devices where
    /// the row is n-type, that of the PMOS devices where it is p-type.
    pub fn row_flavor(&self, row: StrongArmRow) -> (flavor: MosKind)
        ensures
            flavor == if Self::on_input_side(row) == (self.input_kind == InputKind::N) {
                self.nmos_kind
            } else {
                self.pmos_kind
            },
    {
        let on_input_side = match row {
            StrongArmRow::InvInput => true,
            StrongArmRow::InputPair => true,
            StrongArmRow::Tail => true,
            _ => false,
        };
        if on_input_side == self.input_kind.is_n() {
            self.nmos_kind
        } else {
            self.pmos_kind
        }
    }

    /// The rail that the sources and bodies of a row are tied to: the
    /// ground for n-type devices, the positive supply for p-type ones.
    pub fn row_rail(&self, row: StrongArmRow) -> (rail: Rail)
        ensures
            rail == if Self::on_input_side(row) == (self.input_kind == InputKind::N) {
                Rail::Vss
            } else {
                Rail::Vdd
            },
    {
        let on_input_side = match row {
            StrongArmRow::InvInput => true,
            StrongArmRow::InputPair => true,
            StrongArmRow::Tail => true,
            _ => false,
        };
        if on_input_side == self.input_kind.is_n() {
            Rail::Vss
        } else {
            Rail::Vdd
        }
    }

    /// The rows of one half of the latch from the n-tap downwards: the
    /// p-type rows lie next to the n-tap, so the order for a PMOS input
    /// pair is the reverse of that for an NMOS input pair.
    pub fn rows(&self) -> (rows: Vec<StrongArmRow>)
        ensures
            self.input_kind == InputKind::N ==> rows@ == rows_below_ntap(),
            self.input_kind == InputKind::P ==> rows@ == rows_below_ntap().reverse(),
    {
        let mut rows: Vec<StrongArmRow> = Vec::new();
        match self.input_kind {
            InputKind::N => {
                rows.push(StrongArmRow::PrechargeOutput);
                rows.push(StrongArmRow::PrechargeInput);
                rows.push(StrongArmRow::InvPrecharge);
                rows.push(StrongArmRow::InvInput);
                rows.push(StrongArmRow::InputPair);
                rows.push(StrongArmRow::Tail);
                assert(rows@ =~= rows_below_ntap());
            },
            InputKind::P => {
                rows.push(StrongArmRow::Tail);
                rows.push(StrongArmRow::InputPair);
                rows.push(StrongArmRow::InvInput);
                rows.push(StrongArmRow::InvPrecharge);
                rows.push(StrongArmRow::PrechargeInput);
                rows.push(StrongArmRow::PrechargeOutput);
                assert(rows@ =~= rows_below_ntap().reverse());
            },
        }
        rows
    }
}

/// The tap of the given kind of one half of a latch: it spans the dummy and
/// the two devices of a row.
pub fn half_tap(kind: TileKind) -> (tap: TapTileParams)
    ensures
        tap == (TapTileParams { kind, mos_span: 3 }),
{
    TapTileParams::new(kind, 3)
}

/// One half of a StrongARM latch.
#[derive(Debug, Hash, PartialEq, Eq)]
pub struct StrongArmHalf<T>(StrongArmParams, PhantomData<T>);

impl<T> View for StrongArmHalf<T> {
    type V = StrongArmParams;

    /// The parameters.
    closed spec fn view(&self) -> StrongArmParams {
        self.0
    }
}

impl<T> StrongArmHalf<T> {
    /// Creates a new [`StrongArmHalf`].
    pub fn new(params: StrongArmParams) -> (half: Self)
        ensures
            half@ == params,
    {
        Self(params, PhantomData)
    }

    /// The parameters.
    pub fn params(&self) -> (params: StrongArmParams)
        ensures
            params == self@,
    {
        self.0
    }
}

impl<T> Clone for StrongArmHalf<T> {
    fn clone(&self) -> (copy: Self)
        ensures
            copy@ == self@,
    {
        Self(self.0, PhantomData)
    }
}

impl<T> Copy for StrongArmHalf<T> {

}

/// A StrongARM latch.
#[derive(Debug, Hash, PartialEq, Eq)]
pub struct StrongArm<T>(StrongArmParams, PhantomData<T>);

impl<T> View for StrongArm<T> {
    type V = StrongArmParams;

    /// The parameters.
    closed spec fn view(&self) -> StrongArmParams {
        self.0
    }
}

impl<T> StrongArm<T> {
    /// Creates a new [`StrongArm`].
    pub fn new(params: StrongArmParams) -> (latch: Self)
        ensures
            latch@ == params,
    {
        Self(params, PhantomData)
    }

    /// The parameters.
    pub fn params(&self) -> (params: StrongArmParams)
        ensures
            params == self@,
    {
        self.0
    }

    /// One of the two mirrored halves of the latch.
    pub fn half(&self) -> (half: StrongArmHalf<T>)
        ensures
            half@ == self@,
    {
        StrongArmHalf::new(self.0)
    }
}

impl<T> Clone for StrongArm<T> {
    fn clone(&self) -> (copy: Self)
        ensures
            copy@ == self@,
    {
        Self(self.0, PhantomData)
    }
}

impl<T> Copy for StrongArm<T> {

}

/// A StrongARM latch with output buffers.
#[derive(Debug, Hash, PartialEq, Eq)]
pub struct StrongArmWithOutputBuffers<T>(StrongArmParams, InverterParams, PhantomData<T>);

impl<T> View for StrongArmWithOutputBuffers<T> {
    type V = (StrongArmParams, InverterParams);

    /// The parameters of the latch and those of each output buffer.
    closed spec fn view(&self) -> (StrongArmParams, InverterParams) {
        (self.0, self.1)
    }
}

impl<T> StrongArmWithOutputBuffers<T> {
    /// Creates a new [`StrongArmWithOutputBuffers`].
    pub fn new(sa_params: StrongArmParams, buf_params: InverterParams) -> (latch: Self)
        ensures
            latch@ == (sa_params, buf_params),
    {
        Self(sa_params, buf_params, PhantomData)
    }

    /// The latch.
    pub fn strongarm(&self) -> (latch: StrongArm<T>)
        ensures
            latch@ == self@.0,
    {
        StrongArm::new(self.0)
    }

    /// The inverter that buffers each of the two outputs.
    pub fn buffer(&self) -> (buffer: Inverter<T>)
        ensures
            buffer@ == self@.1,
    {
        Inverter::new(self.1)
    }
}

impl<T> Clone for StrongArmWithOutputBuffers<T> {
    fn clone(&self) -> (copy: Self)
        ensures
            copy@ == self@,
    {
        Self(self.0, self.1, PhantomData)
    }
}

impl<T> Copy for StrongArmWithOutputBuffers<T> {

}

} // verus!
