//! Decisions of the detect-spray-log loop. The loop itself, with its
//! camera, display and files, is the caller's.

use vstd::prelude::*;
use crate::logging::ActionTaken;

verus! {

/// Key code of `q`.
pub const KEY_Q: i32 = 113;

/// Key code of the escape key.
pub const KEY_ESCAPE: i32 = 27;

/// Number of frames between two progress reports.
pub const STATS_EVERY: u64 = 100;

/// Half the side of the box that is drawn round a detection without one.
pub const DEFAULT_BOX_MARGIN: i32 = 10;

/// Side of the box that is drawn round a detection without one.
pub const DEFAULT_BOX_SIDE: i32 = 20;

/// Tells whether a pressed key ends the loop: `q` and escape do.
pub fn is_exit_key(key: i32) -> (exit: bool)
    ensures
        exit == (key == KEY_Q || key == KEY_ESCAPE),
{
    key == KEY_Q || key == KEY_ESCAPE
}

/// Tells whether a progress report is due after `frame_count` frames:
/// after every hundredth.
pub fn stats_due(frame_count: u64) -> (due: bool)
    ensures
        due == (frame_count % STATS_EVERY == 0),
{
    frame_count % STATS_EVERY == 0
}

/// Tells whether the position is read for a frame: for the GPS's own sake
/// or for the log's.
pub fn wants_location(gps_enabled: bool, logging_enabled: bool) -> (wanted: bool)
    ensures
        wanted == (gps_enabled || logging_enabled),
{
    gps_enabled || logging_enabled
}

/// `value - DEFAULT_BOX_MARGIN`, held at the smallest `i32`.
pub open spec fn margin_before(value: i32) -> i32 {
    if value - DEFAULT_BOX_MARGIN < i32::MIN {
        i32::MIN
    } else {
        (value - DEFAULT_BOX_MARGIN) as i32
    }
}

/// The bounding box of detection `i`: the box that the detector gave it,
/// or, where the detector gave fewer boxes than centres, a box of 20 by 20
/// round the centre.
pub open spec fn detection_box_spec(centre: [i32; 2], boxes: Seq<[i32; 4]>, i: int) -> Seq<i32> {
    if 0 <= i < boxes.len() {
        boxes[i]@
    } else {
        seq![
            margin_before(centre@[0]),
            margin_before(centre@[1]),
            DEFAULT_BOX_SIDE,
            DEFAULT_BOX_SIDE,
        ]
    }
}

/// Picks the bounding box of detection `i`.
pub fn detection_box(centre: [i32; 2], boxes: &Vec<[i32; 4]>, i: usize) -> (bbox: [i32; 4])
    ensures
        bbox@ == detection_box_spec(centre, boxes@, i as int),
{
    if i < boxes.len() {
        boxes[i]
    } else {
        let x: i32 = if centre[0] < i32::MIN + DEFAULT_BOX_MARGIN {
            i32::MIN
        } else {
            centre[0] - DEFAULT_BOX_MARGIN
        };
        let y: i32 = if centre[1] < i32::MIN + DEFAULT_BOX_MARGIN {
            i32::MIN
        } else {
            centre[1] - DEFAULT_BOX_MARGIN
        };
        let bbox = [x, y, DEFAULT_BOX_SIDE, DEFAULT_BOX_SIDE];
        assert(bbox@ =~= detection_box_spec(centre, boxes@, i as int));
        bbox
    }
}

/// What is done about a detection: with spraying enabled the four
/// sprayers are opened for the given time, else the detection is only
/// logged.
pub fn action_for(spray_enabled: bool, duration_ms: u32, pins: [u8; 4]) -> (action: ActionTaken)
    ensures
        match action {
            ActionTaken::SprayActivated { duration_ms: d, sprayers } => spray_enabled && d
                == duration_ms && sprayers@ == pins@,
            ActionTaken::LoggedOnly => !spray_enabled,
            ActionTaken::Manual { .. } => false,
        },
{
    if spray_enabled {
        let mut sprayers: Vec<u8> = Vec::with_capacity(4);
        sprayers.push(pins[0]);
        sprayers.push(pins[1]);
        sprayers.push(pins[2]);
        sprayers.push(pins[3]);
        assert(sprayers@ =~= pins@);
        ActionTaken::SprayActivated { duration_ms, sprayers }
    } else {
        ActionTaken::LoggedOnly
    }
}

} // verus!
