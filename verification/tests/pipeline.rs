use rustspray::exg::{exg_mask_into, mask_from_bytes};
use rustspray::frame::Frame;
use rustspray::io_gpio::{Actuator, ActuatorError, MockActuator};
use rustspray::lanes::{reduce_lanes, LaneController, LaneRatio};
use rustspray::pipeline::{elapsed_since, report_frame, Decision, Pipeline};
use rustspray::vision::{PlantVision, VegetationMask};
use rustspray::{InvalidInput, SprayCfg};

/// A ratio given as a decimal fraction, in millionths over a million.
fn ratio(x: f64) -> LaneRatio {
    LaneRatio { on: (x * 1e6).round() as usize, total: 1_000_000 }
}

/// A decimal fraction in millionths.
fn ppm(x: f64) -> u32 {
    (x * 1e6).round() as u32
}

fn value(r: LaneRatio) -> f32 {
    if r.total == 0 {
        0.0
    } else {
        r.on as f32 / r.total as f32
    }
}

fn values(r: [LaneRatio; 4]) -> [f32; 4] {
    [value(r[0]), value(r[1]), value(r[2]), value(r[3])]
}

#[test]
fn exg_unit() {
    let rgb = [10u8, 50, 10, 50, 10, 10];
    let mut mask = [0u8; 2];
    exg_mask_into(&rgb, &mut mask, 16).unwrap();
    assert_eq!(mask, [1, 0]);
}

#[test]
fn lane_reducer() {
    let mask = [1, 0, 0, 0, 0, 0, 0, 0]; // 4x2 image
    let ratios = reduce_lanes(&mask_from_bytes(&mask), 4, 2, ppm(1.0)).unwrap();
    assert_eq!(values(ratios), [0.5, 0.0, 0.0, 0.0]);
}

#[test]
fn timing() {
    let cfg = SprayCfg {
        fire_ms: 40,
        holdoff_ms: 100,
        min_ratio: ppm(0.01),
        hysteresis: ppm(0.5),
        ..SprayCfg::default()
    };
    let mut ctrl = LaneController::new(cfg);
    let mut state = ctrl.update([ratio(0.02), ratio(0.0), ratio(0.0), ratio(0.0)], 0);
    assert_eq!(state[0], true);
    // within fire window
    state = ctrl.update([ratio(0.0), ratio(0.0), ratio(0.0), ratio(0.0)], 20);
    assert_eq!(state[0], true);
    // fire window expired -> off
    state = ctrl.update([ratio(0.0), ratio(0.0), ratio(0.0), ratio(0.0)], 20);
    assert_eq!(state[0], false);
    // cooldown prevents retrigger
    state = ctrl.update([ratio(0.02), ratio(0.0), ratio(0.0), ratio(0.0)], 20);
    assert_eq!(state[0], false);
    // the cooldown runs out in this update: the lane is evaluated again from the next one
    state = ctrl.update([ratio(0.02), ratio(0.0), ratio(0.0), ratio(0.0)], 80);
    assert_eq!(state[0], false);
    // after cooldown
    state = ctrl.update([ratio(0.02), ratio(0.0), ratio(0.0), ratio(0.0)], 0);
    assert_eq!(state[0], true);
}

#[test]
fn timing_scenario_all_lanes() {
    let cfg = SprayCfg {
        fire_ms: 40,
        holdoff_ms: 100,
        min_ratio: ppm(0.01),
        hysteresis: ppm(0.5),
        ..SprayCfg::default()
    };
    let mut ctrl = LaneController::new(cfg);
    let hit = [ratio(0.02), ratio(0.0), ratio(0.0), ratio(0.0)];
    let none = [ratio(0.0); 4];
    assert_eq!(ctrl.update(hit, 0), [true, false, false, false]);
    assert_eq!(ctrl.update(none, 20), [true, false, false, false]);
    assert_eq!(ctrl.update(none, 20), [false, false, false, false]);
    assert_eq!(ctrl.update(hit, 20), [false, false, false, false]);
    // the holdoff reaches zero here; the lane is idle from the next update on
    assert_eq!(ctrl.update(hit, 80), [false, false, false, false]);
    assert_eq!(ctrl.update(hit, 1), [true, false, false, false]);
}

#[test]
fn scenario_reduce_bottom_half() {
    let mask = [1, 0, 0, 0, 1, 1, 0, 0];
    let ratios = reduce_lanes(&mask_from_bytes(&mask), 4, 2, ppm(0.5)).unwrap();
    assert_eq!(values(ratios), [1.0, 1.0, 0.0, 0.0]);
    assert_eq!(
        ratios,
        [
            LaneRatio { on: 1, total: 1 },
            LaneRatio { on: 1, total: 1 },
            LaneRatio { on: 0, total: 1 },
            LaneRatio { on: 0, total: 1 },
        ]
    );
}

#[test]
fn elapsed_since_first_frame_is_zero() {
    assert_eq!(elapsed_since(None, 0), 0);
    assert_eq!(elapsed_since(None, 123_456), 0);
}

#[test]
fn elapsed_since_is_difference_cut_off() {
    assert_eq!(elapsed_since(Some(100), 133), 33);
    assert_eq!(elapsed_since(Some(100), 100), 0);
    // a clock that steps back gives no negative time
    assert_eq!(elapsed_since(Some(100), 40), 0);
    assert_eq!(elapsed_since(Some(0), u32::MAX as u64), u32::MAX);
    assert_eq!(elapsed_since(Some(0), u32::MAX as u64 + 1), u32::MAX);
    assert_eq!(elapsed_since(Some(5), u64::MAX), u32::MAX);
}

#[test]
fn report_frame_keeps_decision_and_error() {
    let decision = Decision {
        ratios: [ratio(0.25), ratio(0.0), ratio(1.0), ratio(0.5)],
        states: [true, false, true, false],
        dt_ms: 33,
    };
    let ok = report_frame(decision, Ok(()));
    assert_eq!(ok.ratios, decision.ratios);
    assert_eq!(ok.states, decision.states);
    assert_eq!(ok.dt_ms, 33);
    assert!(ok.actuator_error.is_none());
    let failed = report_frame(decision, Err(ActuatorError("pin 23 stuck".to_string())));
    assert_eq!(failed.states, decision.states);
    assert_eq!(failed.actuator_error.unwrap().0, "pin 23 stuck");
}

/// A 4x2 frame whose bottom row is green in the first two columns.
fn green_left_frame() -> Frame {
    let mut rgb = vec![0u8; 4 * 2 * 3];
    for x in 0..2 {
        rgb[(4 + x) * 3 + 1] = 255;
    }
    Frame::new(4, 2, rgb).unwrap()
}

fn dark_frame() -> Frame {
    Frame::new(4, 2, vec![0u8; 4 * 2 * 3]).unwrap()
}

fn test_cfg() -> SprayCfg {
    SprayCfg {
        thr: 16,
        bottom_frac: ppm(0.5),
        min_ratio: ppm(0.01),
        fire_ms: 40,
        holdoff_ms: 100,
        hysteresis: ppm(0.5),
    }
}

#[test]
fn pipeline_processes_frames_in_order() {
    let mut pipeline =
        Pipeline::new(VegetationMask::Threshold(16), test_cfg(), MockActuator::new());
    let report = pipeline.process(&green_left_frame(), 1_000).unwrap();
    assert_eq!(report.dt_ms, 0);
    assert_eq!(values(report.ratios), [1.0, 1.0, 0.0, 0.0]);
    assert_eq!(report.states, [true, true, false, false]);
    assert!(report.actuator_error.is_none());
    assert_eq!(pipeline.actuator().applied, 1);
    assert_eq!(pipeline.actuator().states, [true, true, false, false]);

    // the fire window keeps the valves open over a dark frame
    let report = pipeline.process(&dark_frame(), 1_020).unwrap();
    assert_eq!(report.dt_ms, 20);
    assert_eq!(report.states, [true, true, false, false]);

    // the window has run out
    let report = pipeline.process(&dark_frame(), 1_040).unwrap();
    assert_eq!(report.dt_ms, 20);
    assert_eq!(report.states, [false, false, false, false]);

    // holdoff keeps the valves closed over a green frame
    let report = pipeline.process(&green_left_frame(), 1_060).unwrap();
    assert_eq!(report.states, [false, false, false, false]);

    // the holdoff runs out
    let report = pipeline.process(&green_left_frame(), 1_140).unwrap();
    assert_eq!(report.dt_ms, 80);
    assert_eq!(report.states, [false, false, false, false]);

    // the lanes are idle again
    let report = pipeline.process(&green_left_frame(), 1_173).unwrap();
    assert_eq!(report.dt_ms, 33);
    assert_eq!(report.states, [true, true, false, false]);
    assert_eq!(pipeline.actuator().applied, 6);
    assert_eq!(pipeline.actuator().ratios, report.ratios);
}

#[test]
fn pipeline_with_hybrid_strategy() {
    let mut pipeline = Pipeline::new(
        VegetationMask::Hybrid(PlantVision::default()),
        test_cfg(),
        MockActuator::new(),
    );
    let report = pipeline.process(&green_left_frame(), 7).unwrap();
    assert_eq!(report.states, [true, true, false, false]);
}

#[test]
fn pipeline_rejects_narrow_frame() {
    let mut pipeline =
        Pipeline::new(VegetationMask::Threshold(16), test_cfg(), MockActuator::new());
    let narrow = Frame::new(3, 2, vec![0u8; 3 * 2 * 3]).unwrap();
    assert_eq!(pipeline.process(&narrow, 5).unwrap_err(), InvalidInput::TooManyLanes);
    assert_eq!(pipeline.actuator().applied, 0);
    // nothing was remembered: the next frame is the first one
    let report = pipeline.process(&green_left_frame(), 1_000).unwrap();
    assert_eq!(report.dt_ms, 0);
}

struct FailingActuator {
    calls: u32,
}

impl Actuator for FailingActuator {
    fn apply(&mut self, _ratios: [LaneRatio; 4], _states: [bool; 4]) -> Result<(), ActuatorError> {
        self.calls += 1;
        Err(ActuatorError(format!("write {} failed", self.calls)))
    }
}

#[test]
fn pipeline_goes_on_after_actuator_error() {
    let mut pipeline =
        Pipeline::new(VegetationMask::Threshold(16), test_cfg(), FailingActuator { calls: 0 });
    let report = pipeline.process(&green_left_frame(), 0).unwrap();
    assert_eq!(report.states, [true, true, false, false]);
    assert_eq!(report.actuator_error.unwrap().0, "write 1 failed");
    // timing went on although the write failed
    let report = pipeline.process(&dark_frame(), 40).unwrap();
    assert_eq!(report.states, [false, false, false, false]);
    assert_eq!(report.actuator_error.unwrap().0, "write 2 failed");
    assert_eq!(pipeline.actuator().calls, 2);
}

#[test]
fn frame_new_checks_buffer_length() {
    assert!(Frame::new(4, 2, vec![0u8; 24]).is_ok());
    assert!(Frame::new(0, 0, vec![]).is_ok());
    assert!(Frame::new(0, 7, vec![]).is_ok());
    assert_eq!(Frame::new(4, 2, vec![0u8; 23]).unwrap_err(), InvalidInput::FrameSize);
    assert_eq!(Frame::new(4, 2, vec![0u8; 25]).unwrap_err(), InvalidInput::FrameSize);
    assert_eq!(Frame::new(4, 2, vec![0u8; 8]).unwrap_err(), InvalidInput::FrameSize);
    assert_eq!(Frame::new(usize::MAX, 2, vec![0u8; 6]).unwrap_err(), InvalidInput::FrameSize);
    assert_eq!(
        Frame::new(usize::MAX / 2, 2, vec![0u8; 6]).unwrap_err(),
        InvalidInput::FrameSize
    );
}

#[test]
fn frame_getters_give_back_what_was_put_in() {
    let rgb: Vec<u8> = (0..24).collect();
    let frame = Frame::new(2, 4, rgb.clone()).unwrap();
    assert_eq!(frame.width(), 2);
    assert_eq!(frame.height(), 4);
    assert_eq!(frame.rgb(), &rgb[..]);
}

#[test]
fn mock_actuator_records_last_command() {
    let mut mock = MockActuator::default();
    assert_eq!(mock.applied, 0);
    assert_eq!(mock.states, [false; 4]);
    let ratios = [ratio(0.1), ratio(0.2), ratio(0.3), ratio(0.4)];
    assert!(mock.apply(ratios, [true, false, false, true]).is_ok());
    assert!(mock.apply(ratios, [false, true, true, false]).is_ok());
    assert_eq!(mock.applied, 2);
    assert_eq!(mock.states, [false, true, true, false]);
    assert_eq!(mock.ratios, ratios);
    mock.applied = u64::MAX;
    assert!(mock.apply(ratios, [true; 4]).is_ok());
    assert_eq!(mock.applied, u64::MAX);
}
