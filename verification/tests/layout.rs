use rust_decimal::Decimal;
use ucie::buffer::{inverter_tap, Buffer, Inverter, InverterParams};
use ucie::decimal::Dec;
use ucie::driver::tb::Pvt;
use ucie::driver::{
    bank_is_flipped, ControlNet, DriverParams, DriverUnitParams, HorizontalDriver,
    HorizontalDriverUnit, HorizontalDriverWithGuardRingRails, UnitDevice, UnitResistor,
    VerticalDriver, VerticalDriverUnit,
};
use ucie::strongarm::tb::{decision, ComparatorDecision, Settled, StrongArmTranTb};
use ucie::strongarm::tech::sky130::{
    Sky130, TapTile as StrongArmTapTile, TwoFingerMosTile as StrongArmMosTile,
};
use ucie::strongarm::{
    half_tap, InputKind, StrongArm, StrongArmHalf, StrongArmParams, StrongArmRow,
    StrongArmWithOutputBuffers,
};
use ucie::tech::sky130::{
    contact_terminal, Diffusion, Sky130Ucie, TapTile, TwoFingerMosTile, BUFFER_SPACING,
    MOS_FINGERS, TAP_ROWS,
};
use ucie::tiles::{MosKind, MosTileParams, Rail, ResistorConn, TapTileParams, TileKind};
use ucie::stimulus::small;
use ucie::vco::{
    push_tuning_point, tuning_increment, tuning_voltage, tuning_voltages, CurrentStarvedInverter,
    DelayCellTb, RingOscillator, StarvedDevice, TuningError,
};

fn dec(mantissa: i128, scale: u32) -> Dec {
    Dec::new(mantissa, scale).unwrap()
}

fn outside(d: Dec) -> Decimal {
    Decimal::from_i128_with_scale(d.mantissa(), d.scale())
}

fn inverter_params() -> InverterParams {
    InverterParams {
        nmos_kind: MosKind::Nom,
        pmos_kind: MosKind::Lvt,
        nmos_w: 1_000,
        pmos_w: 2_000,
    }
}

fn strongarm_params(input_kind: InputKind) -> StrongArmParams {
    StrongArmParams {
        nmos_kind: MosKind::Nom,
        pmos_kind: MosKind::Lvt,
        half_tail_w: 1_100,
        input_pair_w: 1_200,
        inv_input_w: 1_300,
        inv_precharge_w: 1_400,
        precharge_w: 1_500,
        input_kind,
    }
}

fn unit_params() -> DriverUnitParams {
    DriverUnitParams {
        nor_pu_en_w: 1,
        nor_pu_data_w: 2,
        nor_pd_en_w: 3,
        nor_pd_data_w: 4,
        driver_pd_w: 5,
        res_legs: 6,
        res_w: 7,
        pd_res_l: 8,
        pd_res_conn: ResistorConn::Series,
        pu_res_l: 9,
        pu_res_conn: ResistorConn::Parallel,
        driver_pu_w: 10,
        nand_pu_en_w: 11,
        nand_pu_data_w: 12,
        nand_pd_en_w: 13,
        nand_pd_data_w: 14,
    }
}

fn driver_params(num_segments: usize, banks: usize) -> DriverParams {
    DriverParams {
        unit: unit_params(),
        num_segments,
        banks,
    }
}

#[test]
fn tile_params_keep_their_arguments() {
    let mos = MosTileParams::new(TileKind::P, 1_000);
    assert_eq!(mos.kind, TileKind::P);
    assert_eq!(mos.w, 1_000);
    let tap = TapTileParams::new(TileKind::N, 3);
    assert_eq!(tap.kind, TileKind::N);
    assert_eq!(tap.mos_span, 3);
}

#[test]
fn taps_tie_to_the_rail_of_their_kind() {
    assert_eq!(TapTileParams::new(TileKind::N, 1).rail(), Rail::Vdd);
    assert_eq!(TapTileParams::new(TileKind::P, 1).rail(), Rail::Vss);
    assert_eq!(TileKind::N.complement(), TileKind::P);
    assert_eq!(TileKind::P.complement(), TileKind::N);
}

#[test]
fn inverter_and_buffer_keep_their_parameters() {
    let inverter = Inverter::<Sky130Ucie>::new(inverter_params());
    assert_eq!(inverter.params(), inverter_params());
    let buffer = Buffer::<Sky130Ucie>::new(inverter_params());
    assert_eq!(buffer.params(), inverter_params());
    assert_eq!(buffer.stage().params(), inverter_params());
    let copy = buffer;
    assert_eq!(copy.clone().params(), buffer.params());
}

#[test]
fn generators_of_equal_parameters_are_equal() {
    let mut other = inverter_params();
    other.nmos_w = 1_001;
    assert_eq!(
        Inverter::<Sky130Ucie>::new(inverter_params()),
        Inverter::<Sky130Ucie>::new(inverter_params())
    );
    assert_ne!(
        Buffer::<Sky130Ucie>::new(inverter_params()),
        Buffer::<Sky130Ucie>::new(other)
    );
    assert_eq!(
        HorizontalDriver::<Sky130Ucie>::new(driver_params(4, 2)),
        HorizontalDriver::<Sky130Ucie>::new(driver_params(4, 2))
    );
    assert_ne!(
        VerticalDriver::<Sky130Ucie>::new(driver_params(4, 2)),
        VerticalDriver::<Sky130Ucie>::new(driver_params(5, 2))
    );
    assert_eq!(
        StrongArm::<Sky130>::new(strongarm_params(InputKind::N)),
        StrongArm::<Sky130>::new(strongarm_params(InputKind::N))
    );
    assert_ne!(
        StrongArm::<Sky130>::new(strongarm_params(InputKind::N)),
        StrongArm::<Sky130>::new(strongarm_params(InputKind::P))
    );
}

#[test]
fn inverter_tiles() {
    let params = inverter_params();
    assert_eq!(params.nmos_tile(), MosTileParams::new(TileKind::N, 1_000));
    assert_eq!(params.pmos_tile(), MosTileParams::new(TileKind::P, 2_000));
    assert_eq!(inverter_tap(TileKind::P), TapTileParams::new(TileKind::P, 1));
}

#[test]
fn driver_generators_keep_their_parameters() {
    let params = driver_params(4, 2);
    assert_eq!(
        HorizontalDriverUnit::<Sky130Ucie>::new(unit_params()).params(),
        unit_params()
    );
    assert_eq!(
        VerticalDriverUnit::<Sky130Ucie>::new(unit_params()).params(),
        unit_params()
    );
    let rails = HorizontalDriverWithGuardRingRails::<Sky130Ucie>::new(params);
    assert_eq!(rails.params(), params);
    assert_eq!(rails.unit().params(), unit_params());
    assert_eq!(rails.control_lines(), 4);
    let horizontal = HorizontalDriver::<Sky130Ucie>::new(params);
    assert_eq!(horizontal.params(), params);
    assert_eq!(horizontal.bank().params(), params);
    assert_eq!(horizontal.control_lines(), Some(8));
    let vertical = VerticalDriver::<Sky130Ucie>::new(params);
    assert_eq!(vertical.params(), params);
    assert_eq!(vertical.unit().params(), unit_params());
    assert_eq!(vertical.control_lines(), 4);
}

#[test]
fn driver_unit_devices() {
    let unit = unit_params();
    let expected = [
        (UnitDevice::NorPuEn, TileKind::P, 1),
        (UnitDevice::NorPuData, TileKind::P, 2),
        (UnitDevice::NorPdEn, TileKind::N, 3),
        (UnitDevice::NorPdData, TileKind::N, 4),
        (UnitDevice::DriverPd, TileKind::N, 5),
        (UnitDevice::DriverPu, TileKind::P, 10),
        (UnitDevice::NandPuEn, TileKind::P, 11),
        (UnitDevice::NandPuData, TileKind::P, 12),
        (UnitDevice::NandPdEn, TileKind::N, 13),
        (UnitDevice::NandPdData, TileKind::N, 14),
    ];
    for (device, kind, w) in expected {
        assert_eq!(unit.device_tile(device), MosTileParams::new(kind, w));
    }
    let pd = unit.resistor(UnitResistor::PullDown);
    assert_eq!((pd.legs, pd.w, pd.l, pd.conn), (6, 7, 8, ResistorConn::Series));
    let pu = unit.resistor(UnitResistor::PullUp);
    assert_eq!(
        (pu.legs, pu.w, pu.l, pu.conn),
        (6, 7, 9, ResistorConn::Parallel)
    );
}

#[test]
fn row_of_a_horizontal_driver_has_a_dummy_at_either_end() {
    let params = driver_params(3, 2);
    assert_eq!(params.row_units(), Some(5));
    assert_eq!(params.pu_ctl_net(0), ControlNet::Tied(Rail::Vss));
    assert_eq!(params.pd_ctlb_net(0), ControlNet::Tied(Rail::Vdd));
    for position in 1..=3 {
        assert_eq!(params.pu_ctl_net(position), ControlNet::Line(position - 1));
        assert_eq!(params.pd_ctlb_net(position), ControlNet::Line(position - 1));
    }
    assert_eq!(params.pu_ctl_net(4), ControlNet::Tied(Rail::Vss));
    assert_eq!(params.pd_ctlb_net(4), ControlNet::Tied(Rail::Vdd));
    assert_eq!(driver_params(usize::MAX - 1, 1).row_units(), None);
    assert_eq!(driver_params(usize::MAX - 2, 1).row_units(), Some(usize::MAX));
}

#[test]
fn control_lines_of_the_banks_do_not_overlap() {
    let params = driver_params(3, 4);
    assert_eq!(params.banked_lines(), Some(12));
    let mut seen = vec![false; 12];
    for bank in 0..4 {
        for segment in 0..3 {
            let line = params.line_of(bank, segment);
            assert_eq!(line, 3 * bank + segment);
            assert!(!seen[line]);
            seen[line] = true;
        }
    }
    assert!(seen.iter().all(|&s| s));
    assert_eq!(driver_params(usize::MAX, 2).banked_lines(), None);
}

#[test]
fn every_second_bank_is_flipped() {
    assert!(!bank_is_flipped(0));
    assert!(bank_is_flipped(1));
    assert!(!bank_is_flipped(2));
    assert!(bank_is_flipped(usize::MAX));
}

#[test]
fn input_kind_predicates() {
    assert!(InputKind::N.is_n());
    assert!(!InputKind::N.is_p());
    assert!(InputKind::P.is_p());
    assert!(!InputKind::P.is_n());
    assert_eq!(InputKind::N.tile_kind(), TileKind::N);
    assert_eq!(InputKind::P.tile_kind(), TileKind::P);
}

#[test]
fn strongarm_generators_keep_their_parameters() {
    let params = strongarm_params(InputKind::P);
    assert_eq!(StrongArmHalf::<Sky130Ucie>::new(params).params(), params);
    let latch = StrongArm::<Sky130Ucie>::new(params);
    assert_eq!(latch.params(), params);
    assert_eq!(latch.half().params(), params);
    let buffered = StrongArmWithOutputBuffers::<Sky130Ucie>::new(params, inverter_params());
    assert_eq!(buffered.strongarm().params(), params);
    assert_eq!(buffered.buffer().params(), inverter_params());
    assert_eq!(half_tap(TileKind::N), TapTileParams::new(TileKind::N, 3));
}

#[test]
fn strongarm_rows_of_an_nmos_input_pair() {
    let params = strongarm_params(InputKind::N);
    assert_eq!(
        params.rows(),
        vec![
            StrongArmRow::PrechargeOutput,
            StrongArmRow::PrechargeInput,
            StrongArmRow::InvPrecharge,
            StrongArmRow::InvInput,
            StrongArmRow::InputPair,
            StrongArmRow::Tail,
        ]
    );
    let expected = [
        (StrongArmRow::PrechargeOutput, TileKind::P, 1_500, MosKind::Lvt, Rail::Vdd),
        (StrongArmRow::PrechargeInput, TileKind::P, 1_500, MosKind::Lvt, Rail::Vdd),
        (StrongArmRow::InvPrecharge, TileKind::P, 1_400, MosKind::Lvt, Rail::Vdd),
        (StrongArmRow::InvInput, TileKind::N, 1_300, MosKind::Nom, Rail::Vss),
        (StrongArmRow::InputPair, TileKind::N, 1_200, MosKind::Nom, Rail::Vss),
        (StrongArmRow::Tail, TileKind::N, 1_100, MosKind::Nom, Rail::Vss),
    ];
    for (row, kind, w, flavor, rail) in expected {
        assert_eq!(params.row_tile(row), MosTileParams::new(kind, w));
        assert_eq!(params.row_flavor(row), flavor);
        assert_eq!(params.row_rail(row), rail);
    }
}

#[test]
fn strongarm_rows_of_a_pmos_input_pair_are_reversed() {
    let n = strongarm_params(InputKind::N);
    let p = strongarm_params(InputKind::P);
    let mut reversed = n.rows();
    reversed.reverse();
    assert_eq!(p.rows(), reversed);
    let expected = [
        (StrongArmRow::PrechargeOutput, TileKind::N, 1_500, MosKind::Nom, Rail::Vss),
        (StrongArmRow::InvPrecharge, TileKind::N, 1_400, MosKind::Nom, Rail::Vss),
        (StrongArmRow::InvInput, TileKind::P, 1_300, MosKind::Lvt, Rail::Vdd),
        (StrongArmRow::Tail, TileKind::P, 1_100, MosKind::Lvt, Rail::Vdd),
    ];
    for (row, kind, w, flavor, rail) in expected {
        assert_eq!(p.row_tile(row), MosTileParams::new(kind, w));
        assert_eq!(p.row_flavor(row), flavor);
        assert_eq!(p.row_rail(row), rail);
    }
}

#[test]
fn strongarm_testbench_clock() {
    let pvt = Pvt::new((), dec(18, 1), dec(25, 0));
    let tb = StrongArmTranTb::<(), (), ()>::new((), dec(9, 1), dec(8, 1), false, pvt);
    assert_eq!(tb.vinp, dec(9, 1));
    assert_eq!(tb.vinn, dec(8, 1));
    assert!(!tb.inverted_clk);
    let clock = tb.clock();
    assert_eq!(outside(clock.val0), Decimal::ZERO);
    assert_eq!(clock.val1, dec(18, 1));
    assert_eq!(clock.period.map(outside), Some(Decimal::new(1000, 0)));
    assert_eq!(clock.width.map(outside), Some(Decimal::new(100, 0)));
    assert_eq!(clock.delay.map(outside), Some(Decimal::new(10, 9)));
    assert_eq!(clock.rise.map(outside), Some(Decimal::new(100, 12)));
    assert_eq!(clock.fall.map(outside), Some(Decimal::new(100, 12)));
    assert_eq!(outside(tb.stop_time()), Decimal::new(30, 9));
    let tb = StrongArmTranTb::<(), (), ()>::new((), dec(9, 1), dec(8, 1), true, pvt);
    let clock = tb.clock();
    assert_eq!(clock.val0, dec(18, 1));
    assert_eq!(outside(clock.val1), Decimal::ZERO);
}

#[test]
fn delay_cell_testbench_input() {
    let tb = DelayCellTb {
        dut: CurrentStarvedInverter,
        pvt: Pvt::new((), dec(18, 1), dec(25, 0)),
        vtune: dec(18, 1),
        tr: dec(2, 12),
        tf: dec(3, 12),
    };
    let input = tb.input();
    assert_eq!(outside(input.val0), Decimal::ZERO);
    assert_eq!(input.val1, dec(18, 1));
    assert_eq!(input.period.map(outside), Some(Decimal::new(1_000_000, 0)));
    assert_eq!(input.rise, Some(dec(2, 12)));
    assert_eq!(input.fall, Some(dec(3, 12)));
    assert_eq!(input.width.map(outside), Some(Decimal::new(1, 9)));
    assert_eq!(input.delay.map(outside), Some(Decimal::new(1, 9)));
    assert_eq!(outside(tb.stop_time()), Decimal::new(3, 9));
    assert_eq!(outside(small(25, 1)), Decimal::new(25, 1));
}

#[test]
fn comparator_decision_from_the_settled_outputs() {
    let ground = Settled {
        at_ground: true,
        at_supply: false,
    };
    let supply = Settled {
        at_ground: false,
        at_supply: true,
    };
    let between = Settled {
        at_ground: false,
        at_supply: false,
    };
    let both = Settled {
        at_ground: true,
        at_supply: true,
    };
    assert_eq!(decision(ground, supply), Some(ComparatorDecision::Pos));
    assert_eq!(decision(supply, ground), Some(ComparatorDecision::Neg));
    assert_eq!(decision(ground, ground), None);
    assert_eq!(decision(supply, supply), None);
    assert_eq!(decision(between, supply), None);
    assert_eq!(decision(ground, between), None);
    assert_eq!(decision(both, both), Some(ComparatorDecision::Pos));
    assert!(ComparatorDecision::Neg < ComparatorDecision::Pos);
}

#[test]
fn sky130_tap_tiles() {
    let n = TapTile::new(TapTileParams::new(TileKind::N, 3));
    assert_eq!(n.0, TapTileParams::new(TileKind::N, 3));
    assert_eq!(n.name(), "ntap_tile");
    assert_eq!(n.columns(), Some(11));
    let p = TapTile::new(TapTileParams::new(TileKind::P, 1));
    assert_eq!(p.name(), "ptap_tile");
    assert_eq!(p.columns(), Some(3));
    assert_eq!(TapTile::new(TapTileParams::new(TileKind::P, i64::MAX)).columns(), None);
    assert_eq!(TapTile::new(TapTileParams::new(TileKind::P, i64::MIN / 4)).columns(), None);
    assert_eq!(
        TapTile::new(TapTileParams::new(TileKind::P, i64::MAX / 4)).columns(),
        Some(i64::MAX - 4)
    );
    let old = StrongArmTapTile::new(TapTileParams::new(TileKind::N, 3));
    assert_eq!(old.name(), "ntap_tile");
    assert_eq!(old.columns(), Some(11));
    assert_eq!(Sky130, Sky130);
    assert_eq!(Sky130Ucie, Sky130Ucie);
}

#[test]
fn two_finger_mos_tiles() {
    let tile = TwoFingerMosTile::new(1_000, 150u32, TileKind::P);
    assert_eq!((tile.w, tile.l, tile.kind), (1_000, 150, TileKind::P));
    let tile = StrongArmMosTile::new(1_000, 150u32, TileKind::N);
    assert_eq!((tile.w, tile.l, tile.kind), (1_000, 150, TileKind::N));
    assert_eq!(
        StrongArmMosTile::pmos(2_000, 150u32),
        StrongArmMosTile::new(2_000, 150u32, TileKind::P)
    );
    assert_eq!(
        StrongArmMosTile::nmos(2_000, 150u32),
        StrongArmMosTile::new(2_000, 150u32, TileKind::N)
    );
}

#[test]
fn sky130_constants() {
    assert_eq!(BUFFER_SPACING, 3);
    assert_eq!(MOS_FINGERS, 2);
    assert_eq!(TAP_ROWS, 2);
    assert_eq!(contact_terminal(0), Diffusion::Source);
    assert_eq!(contact_terminal(1), Diffusion::Drain);
    assert_eq!(contact_terminal(2), Diffusion::Source);
}

#[test]
fn current_starved_inverter_devices() {
    let cell = CurrentStarvedInverter;
    let size = cell.device_size(StarvedDevice::PullDown);
    assert_eq!((size.w, size.l), (1_200, 150));
    let size = cell.device_size(StarvedDevice::Starve);
    assert_eq!((size.w, size.l), (3_000, 150));
    let size = cell.device_size(StarvedDevice::PullUp);
    assert_eq!((size.w, size.l), (2_400, 150));
}

#[test]
fn ring_oscillator_closes_the_ring() {
    let ring = RingOscillator::new(7, CurrentStarvedInverter);
    assert_eq!(ring.stages(), 7);
    assert_eq!(*ring.element(), CurrentStarvedInverter);
    assert_eq!(ring.stage_input(0), 6);
    for stage in 1..7 {
        assert_eq!(ring.stage_input(stage), stage - 1);
    }
    let mut fed = vec![0; 7];
    for stage in 0..7 {
        fed[ring.stage_input(stage)] += 1;
    }
    assert_eq!(fed, vec![1; 7]);
    assert_eq!(ring.into_element(), CurrentStarvedInverter);
}

#[test]
fn ring_oscillator_needs_an_odd_number_of_stages() {
    assert!(RingOscillator::checked_new(7, CurrentStarvedInverter).is_some());
    assert!(RingOscillator::checked_new(1, CurrentStarvedInverter).is_some());
    assert!(RingOscillator::checked_new(8, CurrentStarvedInverter).is_none());
    assert!(RingOscillator::checked_new(0, CurrentStarvedInverter).is_none());
}

#[test]
fn tuning_voltages_of_the_delay_cell_sweep() {
    let points = tuning_voltages(dec(6, 1), dec(18, 1), 41).unwrap();
    assert_eq!(points.len(), 41);
    let incr = (Decimal::new(18, 1) - Decimal::new(6, 1)) / Decimal::from(40usize);
    for (i, p) in points.iter().enumerate() {
        assert_eq!(outside(*p), Decimal::new(6, 1) + Decimal::from(i) * incr);
    }
    assert_eq!(outside(points[0]), Decimal::new(6, 1));
    assert_eq!(outside(points[1]), Decimal::new(63, 2));
    assert_eq!(outside(points[40]), Decimal::new(18, 1));
}

#[test]
fn tuning_steps() {
    let step = tuning_increment(dec(6, 1), dec(18, 1), 5).unwrap();
    assert_eq!(outside(step), Decimal::new(3, 1));
    let point = tuning_voltage(dec(6, 1), step, 2).unwrap();
    assert_eq!(outside(point), Decimal::new(12, 1));
}

#[test]
fn tuning_voltages_need_two_points() {
    assert_eq!(
        tuning_voltages(dec(6, 1), dec(18, 1), 1),
        Err(TuningError::TooFewPoints)
    );
    assert_eq!(
        tuning_voltages(dec(6, 1), dec(18, 1), 0),
        Err(TuningError::TooFewPoints)
    );
}

#[test]
fn tuning_voltages_out_of_range() {
    let max = (1i128 << 96) - 1;
    assert_eq!(
        tuning_voltages(dec(-max, 0), dec(max, 0), 3),
        Err(TuningError::StepOutOfRange)
    );
    assert!(tuning_voltage(dec(max, 0), dec(1, 0), 1).is_none());
    assert!(tuning_voltage(dec(1, 0), dec(max, 0), 2).is_none());
    assert!(tuning_increment(dec(-max, 0), dec(max, 0), 3).is_none());
    let mut points = vec![dec(6, 1)];
    assert_eq!(
        push_tuning_point(&mut points, None),
        Err(TuningError::PointOutOfRange { index: 1 })
    );
    assert_eq!(push_tuning_point(&mut points, Some(dec(9, 1))), Ok(()));
    assert_eq!(points, vec![dec(6, 1), dec(9, 1)]);
}
