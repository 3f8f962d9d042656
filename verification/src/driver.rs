//! Driver layout generators.

use vstd::prelude::*;
use std::marker::PhantomData;
use crate::tiles::{MosTileParams, Rail, ResistorConn, TileKind};

pub mod collect;
pub mod naming;
pub mod straps;
pub mod sweep;
pub mod tb;

verus! {

/// The parameters of a driver unit schematic/layout generator.
#[derive(Clone, Copy, Debug, Hash, PartialEq, Eq, Structural)]
pub struct DriverUnitParams {
    /// The width of the enable pull-up transistor of the NOR gate.
    pub nor_pu_en_w: i64,
    /// The width of the data pull-up transistor of the NOR gate.
    pub nor_pu_data_w: i64,
    /// The width of the enable pull-down transistor of the NOR gate.
    pub nor_pd_en_w: i64,
    /// The width of the data pull-down transistor of the NOR gate.
    pub nor_pd_data_w: i64,
    /// Half of the width of the driver pull-down transistor.
    pub driver_pd_w: i64,
    /// The number of legs of the resistors.
    pub res_legs: i64,
    /// The width of the resistors.
    pub res_w: i64,
    /// The length of the pull-down resistor.
    pub pd_res_l: i64,
    /// The connection type of the pull-down resistor.
    pub pd_res_conn: ResistorConn,
    /// The length of the pull-up resistor.
    pub pu_res_l: i64,
    /// The connection type of the pull-up resistor.
    pub pu_res_conn: ResistorConn,
    /// Half of the width of the driver pull-up transistor.
    pub driver_pu_w: i64,
    /// The width of the enable pull-up transistor of the NAND gate.
    pub nand_pu_en_w: i64,
    /// The width of the data pull-up transistor of the NAND gate.
    pub nand_pu_data_w: i64,
    /// The width of the enable pull-down transistor of the NAND gate.
    pub nand_pd_en_w: i64,
    /// The width of the data pull-down transistor of the NAND gate.
    pub nand_pd_data_w: i64,
}

/// The transistors of a driver unit.
#[derive(Clone, Copy, Debug, Hash, PartialEq, Eq, Structural)]
pub enum UnitDevice {
    /// The enable pull-up of the NOR gate.
    NorPuEn,
    /// The data pull-up of the NOR gate.
    NorPuData,
    /// The enable pull-down of the NOR gate.
    NorPdEn,
    /// The data pull-down of the NOR gate.
    NorPdData,
    /// The driver pull-down.
    DriverPd,
    /// The driver pull-up.
    DriverPu,
    /// The enable pull-up of the NAND gate.
    NandPuEn,
    /// The data pull-up of the NAND gate.
    NandPuData,
    /// The enable pull-down of the NAND gate.
    NandPdEn,
    /// The data pull-down of the NAND gate.
    NandPdData,
}

/// The two resistors of a driver unit.
#[derive(Clone, Copy, Debug, Hash, PartialEq, Eq, Structural)]
pub enum UnitResistor {
    /// The resistor in series with the driver pull-down.
    PullDown,
    /// The resistor in series with the driver pull-up.
    PullUp,
}

/// The parameters of a resistor tile.
#[derive(Clone, Copy, Debug, Hash, PartialEq, Eq, Structural)]
pub struct ResistorParams {
    /// The number of legs.
    pub legs: i64,
    /// The width.
    pub w: i64,
    /// The length.
    pub l: i64,
    /// How the legs are connected.
    pub conn: ResistorConn,
}

impl DriverUnitParams {
    /// The tile of a transistor of the unit: every pull-up is a p-type
    /// tile, every pull-down an n-type tile, each of its own width.
    pub open spec fn spec_device_tile(&self, device: UnitDevice) -> MosTileParams {
        match device {
            UnitDevice::NorPuEn => MosTileParams { kind: TileKind::P, w: self.nor_pu_en_w },
            UnitDevice::NorPuData => MosTileParams { kind: TileKind::P, w: self.nor_pu_data_w },
            UnitDevice::NorPdEn => MosTileParams { kind: TileKind::N, w: self.nor_pd_en_w },
            UnitDevice::NorPdData => MosTileParams { kind: TileKind::N, w: self.nor_pd_data_w },
            UnitDevice::DriverPd => MosTileParams { kind: TileKind::N, w: self.driver_pd_w },
            UnitDevice::DriverPu => MosTileParams { kind: TileKind::P, w: self.driver_pu_w },
            UnitDevice::NandPuEn => MosTileParams { kind: TileKind::P, w: self.nand_pu_en_w },
            UnitDevice::NandPuData => MosTileParams { kind: TileKind::P, w: self.nand_pu_data_w },
            UnitDevice::NandPdEn => MosTileParams { kind: TileKind::N, w: self.nand_pd_en_w },
            UnitDevice::NandPdData => MosTileParams { kind: TileKind::N, w: self.nand_pd_data_w },
        }
    }

    /// The tile of a transistor of the unit.
    #[verifier::when_used_as_spec(spec_device_tile)]
    pub fn device_tile(&self, device: UnitDevice) -> (tile: MosTileParams)
        ensures
            tile == self.spec_device_tile(device),
    {
        match device {
            UnitDevice::NorPuEn => MosTileParams::new(TileKind::P, self.nor_pu_en_w),
            UnitDevice::NorPuData => MosTileParams::new(TileKind::P, self.nor_pu_data_w),
            UnitDevice::NorPdEn => MosTileParams::new(TileKind::N, self.nor_pd_en_w),
            UnitDevice::NorPdData => MosTileParams::new(TileKind::N, self.nor_pd_data_w),
            UnitDevice::DriverPd => MosTileParams::new(TileKind::N, self.driver_pd_w),
            UnitDevice::DriverPu => MosTileParams::new(TileKind::P, self.driver_pu_w),
            UnitDevice::NandPuEn => MosTileParams::new(TileKind::P, self.nand_pu_en_w),
            UnitDevice::NandPuData => MosTileParams::new(TileKind::P, self.nand_pu_data_w),
            UnitDevice::NandPdEn => MosTileParams::new(TileKind::N, self.nand_pd_en_w),
            UnitDevice::NandPdData => MosTileParams::new(TileKind::N, self.nand_pd_data_w),
        }
    }

    /// The tile of a resistor of the unit: both have the unit's legs and
    /// width, each its own length and connection.
    pub fn resistor(&self, which: UnitResistor) -> (tile: ResistorParams)
        ensures
            tile.legs == self.res_legs,
            tile.w == self.res_w,
            which == UnitResistor::PullDown ==> tile.l == self.pd_res_l && tile.conn
                == self.pd_res_conn,
            which == UnitResistor::PullUp ==> tile.l == self.pu_res_l && tile.conn
                == self.pu_res_conn,
    {
        match which {
            UnitResistor::PullDown => ResistorParams {
                legs: self.res_legs,
                w: self.res_w,
                l: self.pd_res_l,
                conn: self.pd_res_conn,
            },
            UnitResistor::PullUp => ResistorParams {
                legs: self.res_legs,
                w: self.res_w,
                l: self.pu_res_l,
                conn: self.pu_res_conn,
            },
        }
    }
}

/// The parameters of the horizontal and vertical driver generators.
#[derive(Clone, Copy, Debug, Hash, PartialEq, Eq, Structural)]
pub struct DriverParams {
    /// Parameters of the driver unit.
    pub unit: DriverUnitParams,
    /// Number of segments.
    pub num_segments: usize,
    /// Number of banks.
    pub banks: usize,
}

/// What drives a control input of a driver unit.
#[derive(Clone, Copy, Debug, Hash, PartialEq, Eq, Structural)]
pub enum ControlNet {
    /// A supply rail: the unit never switches.
    Tied(Rail),
    /// The control line of this index.
    Line(usize),
}

/// The control line of a bank of a horizontal driver among those of the whole
/// driver: the lines of bank 0 come first, then those of bank 1, and so on.
pub open spec fn flat_line(num_segments: nat, bank: nat, segment: nat) -> nat {
    num_segments * bank + segment
}

/// The flat index of a control line stays below the number of lines, and
/// gives back the bank and the segment: no two lines of a driver share an
/// index.
pub proof fn lemma_flat_line(num_segments: nat, banks: nat, bank: nat, segment: nat)
    requires
        bank < banks,
        segment < num_segments,
    ensures
        flat_line(num_segments, bank, segment) < num_segments * banks,
        flat_line(num_segments, bank, segment) / num_segments == bank,
        flat_line(num_segments, bank, segment) % num_segments == segment,
{
    let line = flat_line(num_segments, bank, segment) as int;
    assert(line == bank * num_segments + segment) by (nonlinear_arith)
        requires
            line == num_segments * bank + segment,
    ;
    vstd::arithmetic::div_mod::lemma_fundamental_div_mod_converse(
        line,
        num_segments as int,
        bank as int,
        segment as int,
    );
    assert(num_segments * bank + num_segments <= num_segments * banks) by (nonlinear_arith)
        requires
            bank < banks,
    ;
}

impl DriverParams {
    /// The number of units in a row of a horizontal driver: one for each
    /// segment and a dummy at either end. `None` where it cannot be
    /// counted.
    pub fn row_units(&self) -> (count: Option<usize>)
        ensures
            count is Some <==> self.num_segments + 2 <= usize::MAX,
            count matches Some(n) ==> n == self.num_segments + 2,
    {
        self.num_segments.checked_add(2)
    }

    /// Whether the unit at a position of a row is one of the two dummies
    /// at its ends.
    pub open spec fn is_dummy(&self, position: nat) -> bool {
        position == 0 || position == self.num_segments + 1
    }

    /// What drives the pull-up control of the unit at a position of a row:
    /// the ground for a dummy, else the pull-up line of its segment.
    pub fn pu_ctl_net(&self, position: usize) -> (net: ControlNet)
        requires
            position <= self.num_segments + 1,
        ensures
            net == if self.is_dummy(position as nat) {
                ControlNet::Tied(Rail::Vss)
            } else {
                ControlNet::Line((position - 1) as usize)
            },
            net matches ControlNet::Line(i) ==> i < self.num_segments,
    {
        if position == 0 || position - 1 == self.num_segments {
            ControlNet::Tied(Rail::Vss)
        } else {
            ControlNet::Line(position - 1)
        }
    }

    /// What drives the inverted pull-down control of the unit at a
    /// position of a row: the positive supply for a dummy, else the
    /// pull-down line of its segment.
    pub fn pd_ctlb_net(&self, position: usize) -> (net: ControlNet)
        requires
            position <= self.num_segments + 1,
        ensures
            net == if self.is_dummy(position as nat) {
                ControlNet::Tied(Rail::Vdd)
            } else {
                ControlNet::Line((position - 1) as usize)
            },
            net matches ControlNet::Line(i) ==> i < self.num_segments,
    {
        if position == 0 || position - 1 == self.num_segments {
            ControlNet::Tied(Rail::Vdd)
        } else {
            ControlNet::Line(position - 1)
        }
    }

    /// The number of pull-up, and of pull-down, control lines of a banked
    /// driver. `None` where it cannot be counted.
    pub fn banked_lines(&self) -> (count: Option<usize>)
        ensures
            count is Some <==> self.num_segments * self.banks <= usize::MAX,
            count matches Some(n) ==> n == self.num_segments * self.banks,
    {
        self.num_segments.checked_mul(self.banks)
    }

    /// The index of the control line of a segment of a bank among those
    /// of the whole driver.
    pub fn line_of(&self, bank: usize, segment: usize) -> (line: usize)
        requires
            bank < self.banks,
            segment < self.num_segments,
            self.num_segments * self.banks <= usize::MAX,
        ensures
            line == flat_line(self.num_segments as nat, bank as nat, segment as nat),
            line < self.num_segments * self.banks,
    {
        proof {
            lemma_flat_line(
                self.num_segments as nat,
                self.banks as nat,
                bank as nat,
                segment as nat,
            );
            assert(0 <= self.num_segments * bank) by (nonlinear_arith);
        }
        self.num_segments * bank + segment
    }
}

/// Whether a bank of a horizontal driver is laid out upside down: every
/// second one is, starting with bank 1, so that neighbours share their rails.
pub fn bank_is_flipped(bank: usize) -> (flipped: bool)
    ensures
        flipped == (bank % 2 == 1),
{
    bank % 2 != 0
}

/// A horizontal driver unit.
#[derive(Debug, Hash, PartialEq, Eq)]
pub struct HorizontalDriverUnit<T>(DriverUnitParams, PhantomData<T>);

impl<T> View for HorizontalDriverUnit<T> {
    type V = DriverUnitParams;

    /// The parameters.
    closed spec fn view(&self) -> DriverUnitParams {
        self.0
    }
}

impl<T> HorizontalDriverUnit<T> {
    /// Creates a new [`HorizontalDriverUnit`].
    pub fn new(params: DriverUnitParams) -> (unit: Self)
        ensures
            unit@ == params,
    {
        Self(params, PhantomData)
    }

    /// The parameters.
    pub fn params(&self) -> (params: DriverUnitParams)
        ensures
            params == self@,
    {
        self.0
    }
}

impl<T> Clone for HorizontalDriverUnit<T> {
    fn clone(&self) -> (copy: Self)
        ensures
            copy@ == self@,
    {
        Self(self.0, PhantomData)
    }
}

impl<T> Copy for HorizontalDriverUnit<T> {

}

/// A horizontal driver with separated guard ring rails.
#[derive(Debug, Hash, PartialEq, Eq)]
pub struct HorizontalDriverWithGuardRingRails<T>(DriverParams, PhantomData<T>);

impl<T> View for HorizontalDriverWithGuardRingRails<T> {
    type V = DriverParams;

    /// The parameters.
    closed spec fn view(&self) -> DriverParams {
        self.0
    }
}

impl<T> HorizontalDriverWithGuardRingRails<T> {
    /// Creates a new [`HorizontalDriverWithGuardRingRails`].
    pub fn new(params: DriverParams) -> (driver: Self)
        ensures
            driver@ == params,
    {
        Self(params, PhantomData)
    }

    /// The parameters.
    pub fn params(&self) -> (params: DriverParams)
        ensures
            params == self@,
    {
        self.0
    }

    /// The unit that the row repeats.
    pub fn unit(&self) -> (unit: HorizontalDriverUnit<T>)
        ensures
            unit@ == self@.unit,
    {
        HorizontalDriverUnit::new(self.0.unit)
    }

    /// The number of pull-up, and of pull-down, control lines: one for
    /// each segment.
    pub fn control_lines(&self) -> (count: usize)
        ensures
            count == self@.num_segments,
    {
        self.0.num_segments
    }
}

impl<T> Clone for HorizontalDriverWithGuardRingRails<T> {
    fn clone(&self) -> (copy: Self)
        ensures
            copy@ == self@,
    {
        Self(self.0, PhantomData)
    }
}

impl<T> Copy for HorizontalDriverWithGuardRingRails<T> {

}

/// A horizontal driver.
#[derive(Debug, Hash, PartialEq, Eq)]
pub struct HorizontalDriver<T>(DriverParams, PhantomData<T>);

impl<T> View for HorizontalDriver<T> {
    type V = DriverParams;

    /// The parameters.
    closed spec fn view(&self) -> DriverParams {
        self.0
    }
}

impl<T> HorizontalDriver<T> {
    /// Creates a new [`HorizontalDriver`].
    pub fn new(params: DriverParams) -> (driver: Self)
        ensures
            driver@ == params,
    {
        Self(params, PhantomData)
    }

    /// The parameters.
    pub fn params(&self) -> (params: DriverParams)
        ensures
            params == self@,
    {
        self.0
    }

    /// The row of units that each bank is.
    pub fn bank(&self) -> (bank: HorizontalDriverWithGuardRingRails<T>)
        ensures
            bank@ == self@,
    {
        HorizontalDriverWithGuardRingRails::new(self.0)
    }

    /// The number of pull-up, and of pull-down, control lines: one for
    /// each segment of each bank. `None` where it cannot be counted.
    pub fn control_lines(&self) -> (count: Option<usize>)
        ensures
            count is Some <==> self@.num_segments * self@.banks <= usize::MAX,
            count matches Some(n) ==> n == self@.num_segments * self@.banks,
    {
        self.0.banked_lines()
    }
}

impl<T> Clone for HorizontalDriver<T> {
    fn clone(&self) -> (copy: Self)
        ensures
            copy@ == self@,
    {
        Self(self.0, PhantomData)
    }
}

impl<T> Copy for HorizontalDriver<T> {

}

/// A vertical driver unit.
#[derive(Debug, Hash, PartialEq, Eq)]
pub struct VerticalDriverUnit<T>(DriverUnitParams, PhantomData<T>);

impl<T> View for VerticalDriverUnit<T> {
    type V = DriverUnitParams;

    /// The parameters.
    closed spec fn view(&self) -> DriverUnitParams {
        self.0
    }
}

impl<T> VerticalDriverUnit<T> {
    /// Creates a new [`VerticalDriverUnit`].
    pub fn new(params: DriverUnitParams) -> (unit: Self)
        ensures
            unit@ == params,
    {
        Self(params, PhantomData)
    }

    /// The parameters.
    pub fn params(&self) -> (params: DriverUnitParams)
        ensures
            params == self@,
    {
        self.0
    }
}

impl<T> Clone for VerticalDriverUnit<T> {
    fn clone(&self) -> (copy: Self)
        ensures
            copy@ == self@,
    {
        Self(self.0, PhantomData)
    }
}

impl<T> Copy for VerticalDriverUnit<T> {

}

/// A vertical driver.
#[derive(Debug, Hash, PartialEq, Eq)]
pub struct VerticalDriver<T>(DriverParams, PhantomData<T>);

impl<T> View for VerticalDriver<T> {
    type V = DriverParams;

    /// The parameters.
    closed spec fn view(&self) -> DriverParams {
        self.0
    }
}

impl<T> VerticalDriver<T> {
    /// Creates a new [`VerticalDriver`].
    pub fn new(params: DriverParams) -> (driver: Self)
        ensures
            driver@ == params,
    {
        Self(params, PhantomData)
    }

    /// The parameters.
    pub fn params(&self) -> (params: DriverParams)
        ensures
            params == self@,
    {
        self.0
    }

    /// The unit that the column repeats.
    pub fn unit(&self) -> (unit: VerticalDriverUnit<T>)
        ensures
            unit@ == self@.unit,
    {
        VerticalDriverUnit::new(self.0.unit)
    }

    /// The number of pull-up, and of pull-down, control lines: one for
    /// each segment.
    pub fn control_lines(&self) -> (count: usize)
        ensures
            count == self@.num_segments,
    {
        self.0.num_segments
    }
}

impl<T> Clone for VerticalDriver<T> {
    fn clone(&self) -> (copy: Self)
        ensures
            copy@ == self@,
    {
        Self(self.0, PhantomData)
    }
}

impl<T> Copy for VerticalDriver<T> {

}

} // verus!
