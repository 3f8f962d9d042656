//! The power and signal straps of the horizontal driver.
//!
//! Each net that is strapped gets a stack of layers, counted upwards from a
//! start layer, and on each layer either vias down to the layer below or
//! straps on every track that lies at a fixed offset in a fixed period. The
//! tables are chosen so that the straps of the supply rails and of the data
//! input, which all run over the whole driver, never meet on a track.

use vstd::prelude::*;

verus! {

/// How a net is strapped on one layer.
#[derive(Clone, Copy, Debug, Hash, PartialEq, Eq, Structural)]
pub enum LayerStrap {
    /// Vias down to the layer below, at least `min_period` tracks apart.
    ViaDown {
        /// The least distance between two vias, in tracks.
        min_period: i64,
    },
    /// A strap on every track `offset + k * period`.
    OffsetPeriod {
        /// The first track.
        offset: i64,
        /// The distance from one strap to the next, in tracks.
        period: i64,
    },
}

/// A net that is strapped.
#[derive(Clone, Copy, Debug, Hash, PartialEq, Eq, Structural)]
pub enum StrapNet {
    /// The data input.
    Din,
    /// The positive supply.
    Vdd,
    /// The ground.
    Vss,
    /// The positive supply of the guard ring.
    GuardRingVdd,
    /// The ground of the guard ring.
    GuardRingVss,
}

/// The part of the driver that a stack of straps is confined to.
#[derive(Clone, Copy, Debug, Hash, PartialEq, Eq, Structural)]
pub enum StrapRegion {
    /// The whole driver.
    Whole,
    /// The rows of the guard ring around the pull-up transistors.
    PullUpGuardRing,
    /// The rows of the guard ring around the pull-down transistors.
    PullDownGuardRing,
    /// From the guard ring around the pull-up transistors to the top.
    PullUpNetwork,
    /// From the guard ring around the pull-down transistors to the bottom.
    PullDownNetwork,
}

/// The straps of one net over one region.
#[derive(Debug, PartialEq, Eq)]
pub struct Strapping {
    /// The net.
    pub net: StrapNet,
    /// The region.
    pub region: StrapRegion,
    /// The layer of the first entry of `layers`.
    pub start_layer: usize,
    /// The straps layer by layer, upwards.
    pub layers: Vec<LayerStrap>,
}

/// Whether a track carries a strap.
pub open spec fn strapped(track: int, strap: LayerStrap) -> bool {
    match strap {
        LayerStrap::ViaDown { min_period } => false,
        LayerStrap::OffsetPeriod { offset, period } => track >= offset && (track - offset) % (
        period as int) == 0,
    }
}

/// The straps of a guard ring rail in a row of units.
pub open spec fn guard_ring_layers() -> Seq<LayerStrap> {
    seq![
        LayerStrap::ViaDown { min_period: 3 },
        LayerStrap::OffsetPeriod { offset: 3, period: 5 },
        LayerStrap::OffsetPeriod { offset: 0, period: 7 },
        LayerStrap::OffsetPeriod { offset: 5, period: 9 },
        LayerStrap::OffsetPeriod { offset: 0, period: 2 },
    ]
}

/// The straps of the data input in a row of units.
pub open spec fn row_din_layers() -> Seq<LayerStrap> {
    seq![
        LayerStrap::ViaDown { min_period: 1 },
        LayerStrap::OffsetPeriod { offset: 2, period: 10 },
        LayerStrap::OffsetPeriod { offset: 8, period: 22 },
        LayerStrap::OffsetPeriod { offset: 8, period: 18 },
        LayerStrap::OffsetPeriod { offset: 8, period: 13 },
    ]
}

/// The straps of a supply rail over a whole row of units: the ground on the
/// tracks of offset 0, the positive supply on those of offset 1.
pub open spec fn row_rail_layers(offset: i64) -> Seq<LayerStrap> {
    seq![
        LayerStrap::ViaDown { min_period: 3 },
        LayerStrap::OffsetPeriod { offset, period: 5 },
        LayerStrap::OffsetPeriod { offset, period: 11 },
        LayerStrap::OffsetPeriod { offset, period: 9 },
        LayerStrap::OffsetPeriod { offset, period: 13 },
    ]
}

/// The dense vias of a supply rail over a pull-up or pull-down network.
pub open spec fn network_layers() -> Seq<LayerStrap> {
    seq![LayerStrap::ViaDown { min_period: 1 }]
}

/// The straps of a net across the banks of a driver.
pub open spec fn bank_layers(offset: i64) -> Seq<LayerStrap> {
    seq![
        LayerStrap::OffsetPeriod { offset, period: 8 },
        LayerStrap::OffsetPeriod { offset, period: 8 },
    ]
}

/// The layers that the straps of a net over a whole row of units are.
pub open spec fn row_whole_layers(net: StrapNet) -> Seq<LayerStrap> {
    match net {
        StrapNet::Din => row_din_layers(),
        StrapNet::Vss => row_rail_layers(0),
        StrapNet::Vdd => row_rail_layers(1),
        _ => guard_ring_layers(),
    }
}

/// The offset of the straps of a net across the banks of a driver.
pub open spec fn bank_offset(net: StrapNet) -> i64 {
    match net {
        StrapNet::Din => 5,
        StrapNet::Vss => 2,
        _ => 1,
    }
}

/// Whether a net runs over the whole driver: the data input and the two
/// supply rails do.
pub open spec fn runs_over_whole(net: StrapNet) -> bool {
    net == StrapNet::Din || net == StrapNet::Vss || net == StrapNet::Vdd
}

/// In a row of units, no track of a layer carries the straps of two of the
/// nets that run over the whole row.
pub proof fn lemma_row_straps_do_not_meet(a: StrapNet, b: StrapNet, layer: int, track: int)
    requires
        runs_over_whole(a),
        runs_over_whole(b),
        a != b,
        0 <= layer < 5,
    ensures
        !(strapped(track, row_whole_layers(a)[layer]) && strapped(
            track,
            row_whole_layers(b)[layer],
        )),
{
    let din = row_din_layers()[layer];
    let vss = row_rail_layers(0)[layer];
    let vdd = row_rail_layers(1)[layer];
    if layer == 1 {
        assert(strapped(track, din) ==> (track - 2) % 10 == 0);
        assert(strapped(track, vss) ==> track % 5 == 0);
        assert(strapped(track, vdd) ==> (track - 1) % 5 == 0);
    } else if layer == 2 {
        assert(strapped(track, din) ==> (track - 8) % 22 == 0);
        assert(strapped(track, vss) ==> track % 11 == 0);
        assert(strapped(track, vdd) ==> (track - 1) % 11 == 0);
    } else if layer == 3 {
        assert(strapped(track, din) ==> (track - 8) % 18 == 0);
        assert(strapped(track, vss) ==> track % 9 == 0);
        assert(strapped(track, vdd) ==> (track - 1) % 9 == 0);
    } else if layer == 4 {
        assert(strapped(track, din) ==> (track - 8) % 13 == 0);
        assert(strapped(track, vss) ==> track % 13 == 0);
        assert(strapped(track, vdd) ==> (track - 1) % 13 == 0);
    } else {
        assert(!strapped(track, din) && !strapped(track, vss) && !strapped(track, vdd));
    }
}

/// Across the banks of a driver, no track of a layer carries the straps of
/// two nets.
pub proof fn lemma_bank_straps_do_not_meet(a: StrapNet, b: StrapNet, layer: int, track: int)
    requires
        runs_over_whole(a),
        runs_over_whole(b),
        a != b,
        0 <= layer < 2,
    ensures
        !(strapped(track, bank_layers(bank_offset(a))[layer]) && strapped(
            track,
            bank_layers(bank_offset(b))[layer],
        )),
{
    let din = bank_layers(5)[layer];
    let vss = bank_layers(2)[layer];
    let vdd = bank_layers(1)[layer];
    assert(strapped(track, din) ==> (track - 5) % 8 == 0);
    assert(strapped(track, vss) ==> (track - 2) % 8 == 0);
    assert(strapped(track, vdd) ==> (track - 1) % 8 == 0);
}

fn guard_ring_straps(net: StrapNet, region: StrapRegion) -> (s: Strapping)
    ensures
        s.net == net,
        s.region == region,
        s.start_layer == 1,
        s.layers@ == guard_ring_layers(),
{
    let mut layers: Vec<LayerStrap> = Vec::new();
    layers.push(LayerStrap::ViaDown { min_period: 3 });
    layers.push(LayerStrap::OffsetPeriod { offset: 3, period: 5 });
    layers.push(LayerStrap::OffsetPeriod { offset: 0, period: 7 });
    layers.push(LayerStrap::OffsetPeriod { offset: 5, period: 9 });
    layers.push(LayerStrap::OffsetPeriod { offset: 0, period: 2 });
    assert(layers@ =~= guard_ring_layers());
    Strapping { net, region, start_layer: 1, layers }
}

fn row_din_straps() -> (s: Strapping)
    ensures
        s.net == StrapNet::Din,
        s.region == StrapRegion::Whole,
        s.start_layer == 1,
        s.layers@ == row_din_layers(),
{
    let mut layers: Vec<LayerStrap> = Vec::new();
    layers.push(LayerStrap::ViaDown { min_period: 1 });
    layers.push(LayerStrap::OffsetPeriod { offset: 2, period: 10 });
    layers.push(LayerStrap::OffsetPeriod { offset: 8, period: 22 });
    layers.push(LayerStrap::OffsetPeriod { offset: 8, period: 18 });
    layers.push(LayerStrap::OffsetPeriod { offset: 8, period: 13 });
    assert(layers@ =~= row_din_layers());
    Strapping { net: StrapNet::Din, region: StrapRegion::Whole, start_layer: 1, layers }
}

fn row_rail_straps(net: StrapNet, offset: i64) -> (s: Strapping)
    ensures
        s.net == net,
        s.region == StrapRegion::Whole,
        s.start_layer == 1,
        s.layers@ == row_rail_layers(offset),
{
    let mut layers: Vec<LayerStrap> = Vec::new();
    layers.push(LayerStrap::ViaDown { min_period: 3 });
    layers.push(LayerStrap::OffsetPeriod { offset, period: 5 });
    layers.push(LayerStrap::OffsetPeriod { offset, period: 11 });
    layers.push(LayerStrap::OffsetPeriod { offset, period: 9 });
    layers.push(LayerStrap::OffsetPeriod { offset, period: 13 });
    assert(layers@ =~= row_rail_layers(offset));
    Strapping { net, region: StrapRegion::Whole, start_layer: 1, layers }
}

fn network_straps(net: StrapNet, region: StrapRegion) -> (s: Strapping)
    ensures
        s.net == net,
        s.region == region,
        s.start_layer == 1,
        s.layers@ == network_layers(),
{
    let mut layers: Vec<LayerStrap> = Vec::new();
    layers.push(LayerStrap::ViaDown { min_period: 1 });
    assert(layers@ =~= network_layers());
    Strapping { net, region, start_layer: 1, layers }
}

fn bank_straps(net: StrapNet, offset: i64) -> (s: Strapping)
    ensures
        s.net == net,
        s.region == StrapRegion::Whole,
        s.start_layer == 6,
        s.layers@ == bank_layers(offset),
{
    let mut layers: Vec<LayerStrap> = Vec::new();
    layers.push(LayerStrap::OffsetPeriod { offset, period: 8 });
    layers.push(LayerStrap::OffsetPeriod { offset, period: 8 });
    assert(layers@ =~= bank_layers(offset));
    Strapping { net, region: StrapRegion::Whole, start_layer: 6, layers }
}

/// Whether these are the straps of a row of units: the guard ring rails over
/// their rings, the data input, and for each supply rail dense vias over
/// the pull-up and the pull-down network and straps over the whole row, all
/// from layer 1 upwards.
pub open spec fn is_row_strapping(straps: Seq<Strapping>) -> bool {
    &&& straps.len() == 9
    &&& forall|i: int| 0 <= i < 9 ==> (#[trigger] straps[i]).start_layer == 1
    &&& straps[0].net == StrapNet::GuardRingVss
    &&& straps[0].region == StrapRegion::PullUpGuardRing
    &&& straps[0].layers@ == guard_ring_layers()
    &&& straps[1].net == StrapNet::GuardRingVdd
    &&& straps[1].region == StrapRegion::PullDownGuardRing
    &&& straps[1].layers@ == guard_ring_layers()
    &&& straps[2].net == StrapNet::Din
    &&& straps[2].region == StrapRegion::Whole
    &&& straps[2].layers@ == row_din_layers()
    &&& straps[3].net == StrapNet::Vss
    &&& straps[3].region == StrapRegion::PullUpNetwork
    &&& straps[3].layers@ == network_layers()
    &&& straps[4].net == StrapNet::Vss
    &&& straps[4].region == StrapRegion::PullDownNetwork
    &&& straps[4].layers@ == network_layers()
    &&& straps[5].net == StrapNet::Vss
    &&& straps[5].region == StrapRegion::Whole
    &&& straps[5].layers@ == row_rail_layers(0)
    &&& straps[6].net == StrapNet::Vdd
    &&& straps[6].region == StrapRegion::PullUpNetwork
    &&& straps[6].layers@ == network_layers()
    &&& straps[7].net == StrapNet::Vdd
    &&& straps[7].region == StrapRegion::PullDownNetwork
    &&& straps[7].layers@ == network_layers()
    &&& straps[8].net == StrapNet::Vdd
    &&& straps[8].region == StrapRegion::Whole
    &&& straps[8].layers@ == row_rail_layers(1)
}

/// The straps of a row of units, in the order in which they are set.
pub fn row_strapping() -> (straps: Vec<Strapping>)
    ensures
        is_row_strapping(straps@),
{
    let mut straps: Vec<Strapping> = Vec::new();
    straps.push(guard_ring_straps(StrapNet::GuardRingVss, StrapRegion::PullUpGuardRing));
    straps.push(guard_ring_straps(StrapNet::GuardRingVdd, StrapRegion::PullDownGuardRing));
    straps.push(row_din_straps());
    straps.push(network_straps(StrapNet::Vss, StrapRegion::PullUpNetwork));
    straps.push(network_straps(StrapNet::Vss, StrapRegion::PullDownNetwork));
    straps.push(row_rail_straps(StrapNet::Vss, 0));
    straps.push(network_straps(StrapNet::Vdd, StrapRegion::PullUpNetwork));
    straps.push(network_straps(StrapNet::Vdd, StrapRegion::PullDownNetwork));
    straps.push(row_rail_straps(StrapNet::Vdd, 1));
    straps
}

/// Whether these are the straps across the banks of a driver: the data
/// input, the ground and the positive supply, each over the whole driver on
/// the two layers from layer 6 upwards.
pub open spec fn is_bank_strapping(straps: Seq<Strapping>) -> bool {
    &&& straps.len() == 3
    &&& forall|i: int|
        0 <= i < 3 ==> (#[trigger] straps[i]).start_layer == 6 && straps[i].region
            == StrapRegion::Whole && straps[i].layers@ == bank_layers(bank_offset(straps[i].net))
    &&& straps[0].net == StrapNet::Din
    &&& straps[1].net == StrapNet::Vss
    &&& straps[2].net == StrapNet::Vdd
}

/// The straps across the banks of a driver, in the order in which they are
/// set.
pub fn bank_strapping() -> (straps: Vec<Strapping>)
    ensures
        is_bank_strapping(straps@),
{
    let mut straps: Vec<Strapping> = Vec::new();
    straps.push(bank_straps(StrapNet::Din, 5));
    straps.push(bank_straps(StrapNet::Vss, 2));
    straps.push(bank_straps(StrapNet::Vdd, 1));
    straps
}

} // verus!
