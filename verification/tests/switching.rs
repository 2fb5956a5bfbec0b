use rustspray::io_gpio::{ActuatorError, MockGpio, NozzleControl};
use rustspray::lanes::LaneReducer;
use rustspray::pipeline::SwitchingPipeline;
use rustspray::vision::PlantVision;
use rustspray::InvalidInput;

const WIDTH: usize = 64;
const HEIGHT: usize = 48;

/// A frame with strong green in lanes 0 and 2 of four.
fn striped_frame() -> Vec<u8> {
    let mut frame = vec![0u8; WIDTH * HEIGHT * 3];
    for y in 0..HEIGHT {
        for x in 0..WIDTH {
            let idx = (y * WIDTH + x) * 3;
            if x < WIDTH / 4 || (x >= WIDTH / 2 && x < 3 * WIDTH / 4) {
                frame[idx + 1] = 255;
            }
        }
    }
    frame
}

fn pipeline() -> SwitchingPipeline<MockGpio> {
    let reducer = LaneReducer::new(4, 300_000, 150_000).unwrap();
    SwitchingPipeline::new(reducer, MockGpio::default(), PlantVision::default(), WIDTH, HEIGHT)
}

#[test]
fn switching_pipeline_switches_green_lanes() {
    let mut pipeline = pipeline();
    let (lanes, error) = pipeline.process(&striped_frame()).unwrap();
    assert_eq!(lanes, vec![true, false, true, false]);
    assert!(error.is_none());
    assert_eq!(pipeline.gpio().applied, 1);
    assert_eq!(pipeline.gpio().lanes, vec![true, false, true, false]);
    let (lanes, _) = pipeline.process(&vec![0u8; WIDTH * HEIGHT * 3]).unwrap();
    assert_eq!(lanes, vec![false, false, false, false]);
    assert_eq!(pipeline.gpio().applied, 2);
}

#[test]
fn switching_pipeline_keeps_lane_on_between_thresholds() {
    let mut pipeline = pipeline();
    pipeline.process(&striped_frame()).unwrap();
    // a fifth of lane 0 stays green: below the on threshold, above the off threshold
    let mut frame = vec![0u8; WIDTH * HEIGHT * 3];
    for y in 0..HEIGHT {
        for x in 0..4 {
            frame[(y * WIDTH + x) * 3 + 1] = 255;
        }
    }
    let (lanes, _) = pipeline.process(&frame).unwrap();
    assert_eq!(lanes, vec![true, false, false, false]);
    // the same frame does not switch a lane on that was off
    let mut fresh = self::pipeline();
    let (lanes, _) = fresh.process(&frame).unwrap();
    assert_eq!(lanes, vec![false, false, false, false]);
}

#[test]
fn switching_pipeline_rejects_wrong_frame_size() {
    let mut pipeline = pipeline();
    pipeline.process(&striped_frame()).unwrap();
    assert_eq!(pipeline.process(&[0u8; 12]).unwrap_err(), InvalidInput::FrameSize);
    assert_eq!(
        pipeline.process(&vec![0u8; WIDTH * HEIGHT * 3 + 1]).unwrap_err(),
        InvalidInput::FrameSize
    );
    assert_eq!(pipeline.gpio().applied, 1);
    // the lanes are as they were: lane 0 is still on for a frame between the thresholds
    let mut frame = vec![0u8; WIDTH * HEIGHT * 3];
    for y in 0..HEIGHT {
        for x in 0..4 {
            frame[(y * WIDTH + x) * 3 + 1] = 255;
        }
    }
    assert_eq!(pipeline.process(&frame).unwrap().0, vec![true, false, false, false]);
}

#[test]
fn switching_pipeline_rejects_more_lanes_than_columns() {
    let reducer = LaneReducer::new(5, 300_000, 150_000).unwrap();
    let mut narrow =
        SwitchingPipeline::new(reducer, MockGpio::new(), PlantVision::default(), 2, 1);
    assert_eq!(narrow.process(&[0u8; 6]).unwrap_err(), InvalidInput::TooManyLanes);
    assert_eq!(narrow.process(&[0u8; 5]).unwrap_err(), InvalidInput::FrameSize);
    assert_eq!(narrow.gpio().applied, 0);
}

struct StuckNozzles;

impl NozzleControl for StuckNozzles {
    fn apply(&mut self, _lanes: &[bool]) -> Result<(), ActuatorError> {
        Err(ActuatorError("nozzles stuck".to_string()))
    }
}

#[test]
fn switching_pipeline_reports_nozzle_error() {
    let reducer = LaneReducer::new(4, 300_000, 150_000).unwrap();
    let mut pipeline =
        SwitchingPipeline::new(reducer, StuckNozzles, PlantVision::default(), WIDTH, HEIGHT);
    let (lanes, error) = pipeline.process(&striped_frame()).unwrap();
    assert_eq!(lanes, vec![true, false, true, false]);
    assert_eq!(error.unwrap().0, "nozzles stuck");
}

#[test]
fn mock_gpio_records_last_command() {
    let mut mock = MockGpio::new();
    assert_eq!(mock.applied, 0);
    assert!(mock.lanes.is_empty());
    assert!(mock.apply(&[true, false]).is_ok());
    assert!(mock.apply(&[false, true, true]).is_ok());
    assert_eq!(mock.applied, 2);
    assert_eq!(mock.lanes, vec![false, true, true]);
    assert!(mock.apply(&[]).is_ok());
    assert!(mock.lanes.is_empty());
}
