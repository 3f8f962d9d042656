use ucie::driver::straps::{
    bank_strapping, row_strapping, LayerStrap, StrapNet, StrapRegion, Strapping,
};

fn via_down(min_period: i64) -> LayerStrap {
    LayerStrap::ViaDown { min_period }
}

fn every(offset: i64, period: i64) -> LayerStrap {
    LayerStrap::OffsetPeriod { offset, period }
}

fn tracks(strap: &LayerStrap, upto: i64) -> Vec<i64> {
    match *strap {
        LayerStrap::ViaDown { .. } => Vec::new(),
        LayerStrap::OffsetPeriod { offset, period } => (0..upto)
            .filter(|t| *t >= offset && (t - offset) % period == 0)
            .collect(),
    }
}

#[test]
fn straps_of_a_row_of_units() {
    let guard_ring = vec![via_down(3), every(3, 5), every(0, 7), every(5, 9), every(0, 2)];
    let dense = vec![via_down(1)];
    let rail = |offset: i64| {
        vec![
            via_down(3),
            every(offset, 5),
            every(offset, 11),
            every(offset, 9),
            every(offset, 13),
        ]
    };
    let strapping = |net, region, layers| Strapping {
        net,
        region,
        start_layer: 1,
        layers,
    };
    let expected = vec![
        strapping(
            StrapNet::GuardRingVss,
            StrapRegion::PullUpGuardRing,
            guard_ring.clone(),
        ),
        strapping(
            StrapNet::GuardRingVdd,
            StrapRegion::PullDownGuardRing,
            guard_ring,
        ),
        strapping(
            StrapNet::Din,
            StrapRegion::Whole,
            vec![via_down(1), every(2, 10), every(8, 22), every(8, 18), every(8, 13)],
        ),
        strapping(StrapNet::Vss, StrapRegion::PullUpNetwork, dense.clone()),
        strapping(StrapNet::Vss, StrapRegion::PullDownNetwork, dense.clone()),
        strapping(StrapNet::Vss, StrapRegion::Whole, rail(0)),
        strapping(StrapNet::Vdd, StrapRegion::PullUpNetwork, dense.clone()),
        strapping(StrapNet::Vdd, StrapRegion::PullDownNetwork, dense),
        strapping(StrapNet::Vdd, StrapRegion::Whole, rail(1)),
    ];
    assert_eq!(row_strapping(), expected);
}

#[test]
fn straps_across_the_banks() {
    let strapping = |net, offset| Strapping {
        net,
        region: StrapRegion::Whole,
        start_layer: 6,
        layers: vec![every(offset, 8), every(offset, 8)],
    };
    assert_eq!(
        bank_strapping(),
        vec![
            strapping(StrapNet::Din, 5),
            strapping(StrapNet::Vss, 2),
            strapping(StrapNet::Vdd, 1),
        ]
    );
}

#[test]
fn straps_over_the_whole_driver_do_not_meet() {
    for straps in [row_strapping(), bank_strapping()] {
        let whole: Vec<&Strapping> = straps
            .iter()
            .filter(|s| {
                s.region == StrapRegion::Whole
                    && matches!(s.net, StrapNet::Din | StrapNet::Vss | StrapNet::Vdd)
            })
            .collect();
        assert_eq!(whole.len(), 3);
        for (i, a) in whole.iter().enumerate() {
            for b in whole.iter().skip(i + 1) {
                assert_eq!(a.layers.len(), b.layers.len());
                for layer in 0..a.layers.len() {
                    let on_a = tracks(&a.layers[layer], 3000);
                    let on_b = tracks(&b.layers[layer], 3000);
                    assert!(on_a.iter().all(|t| !on_b.contains(t)));
                }
            }
        }
    }
}
