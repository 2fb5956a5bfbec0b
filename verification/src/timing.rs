//! Per-lane valve timing: minimum fire time, holdoff and hysteresis.

use vstd::prelude::*;
use crate::config::SprayCfg;
use crate::lanes::LaneRatio;
use crate::units::LANES;

verus! {

/// What the controller remembers of one lane. A lane with fire time left
/// is firing; otherwise, with cooldown left, it is cooling down; otherwise
/// it is idle.
#[derive(Debug, Clone, Copy, PartialEq, Eq, Structural)]
pub struct LaneState {
    /// Whether the lane fired when it was last evaluated while idle.
    pub armed: bool,
    /// Time in ms left of the fire window.
    pub fire_remaining_ms: u32,
    /// Time in ms left of the holdoff.
    pub cooldown_remaining_ms: u32,
}

impl LaneState {
    /// A lane that has never fired.
    pub open spec fn idle() -> LaneState {
        LaneState { armed: false, fire_remaining_ms: 0, cooldown_remaining_ms: 0 }
    }

    /// What holds of every state that a controller reaches: at most one of
    /// the two timers runs, and a lane whose timer runs is armed, since it
    /// fired when it was last evaluated.
    pub open spec fn consistent(self) -> bool {
        &&& !(self.fire_remaining_ms > 0 && self.cooldown_remaining_ms > 0)
        &&& (self.fire_remaining_ms > 0 || self.cooldown_remaining_ms > 0) ==> self.armed
    }
}

/// One update of one lane: the state it moves to and whether its valve is
/// open.
///
/// A firing lane counts its window down and stays open while time is left;
/// when the window runs out it closes and starts its holdoff. A lane in
/// holdoff counts down and stays closed, whatever the ratio; once the
/// holdoff has run out, the next update finds the lane idle. An idle lane
/// is evaluated: a ratio that reaches the threshold arms it, opens the
/// valve and starts the fire window; any other ratio disarms it.
pub open spec fn lane_step(cfg: SprayCfg, s: LaneState, ratio: LaneRatio, dt_ms: u32) -> (
    LaneState,
    bool,
) {
    if s.fire_remaining_ms > 0 {
        let left = s.fire_remaining_ms.saturating_sub(dt_ms);
        if left > 0 {
            (
                LaneState {
                    armed: s.armed,
                    fire_remaining_ms: left,
                    cooldown_remaining_ms: s.cooldown_remaining_ms,
                },
                true,
            )
        } else {
            (
                LaneState {
                    armed: s.armed,
                    fire_remaining_ms: 0,
                    cooldown_remaining_ms: cfg.holdoff_ms,
                },
                false,
            )
        }
    } else if s.cooldown_remaining_ms > 0 {
        (
            LaneState {
                armed: s.armed,
                fire_remaining_ms: 0,
                cooldown_remaining_ms: s.cooldown_remaining_ms.saturating_sub(dt_ms),
            },
            false,
        )
    } else if cfg.triggers(ratio, s.armed) {
        (LaneState { armed: true, fire_remaining_ms: cfg.fire_ms, cooldown_remaining_ms: 0 }, true)
    } else {
        (LaneState { armed: false, fire_remaining_ms: 0, cooldown_remaining_ms: 0 }, false)
    }
}

/// What one update hands to one lane.
pub struct LaneInput {
    /// The lane's ratio in this frame.
    pub ratio: LaneRatio,
    /// Time in ms since the previous update.
    pub dt_ms: u32,
}

/// The state of a lane after the updates `inputs`, made in order from
/// state `s`.
pub open spec fn lane_run(cfg: SprayCfg, s: LaneState, inputs: Seq<LaneInput>) -> LaneState
    decreases inputs.len(),
{
    if inputs.len() == 0 {
        s
    } else {
        lane_step(
            cfg,
            lane_run(cfg, s, inputs.drop_last()),
            inputs.last().ratio,
            inputs.last().dt_ms,
        ).0
    }
}

/// Whether the valve is open after the last of the updates `inputs`, made
/// in order from state `s`.
pub open spec fn lane_open(cfg: SprayCfg, s: LaneState, inputs: Seq<LaneInput>) -> bool {
    lane_step(
        cfg,
        lane_run(cfg, s, inputs.drop_last()),
        inputs.last().ratio,
        inputs.last().dt_ms,
    ).1
}

/// The time in ms that the updates `inputs` span.
pub open spec fn elapsed_ms(inputs: Seq<LaneInput>) -> int
    decreases inputs.len(),
{
    if inputs.len() == 0 {
        0
    } else {
        elapsed_ms(inputs.drop_last()) + inputs.last().dt_ms
    }
}

/// The update opens the valve of a lane that was not firing: a fire window
/// starts.
pub open spec fn starts_firing(cfg: SprayCfg, s: LaneState, input: LaneInput) -> bool {
    s.fire_remaining_ms == 0 && lane_step(cfg, s, input.ratio, input.dt_ms).1
}

/// The update closes the valve of a firing lane: its fire window ends.
pub open spec fn ends_firing(cfg: SprayCfg, s: LaneState, input: LaneInput) -> bool {
    s.fire_remaining_ms > 0 && !lane_step(cfg, s, input.ratio, input.dt_ms).1
}

/// While the updates span less than the fire time left, the lane keeps
/// firing and its window shrinks by the time spanned.
pub proof fn lemma_firing_persists(cfg: SprayCfg, s: LaneState, inputs: Seq<LaneInput>)
    requires
        elapsed_ms(inputs) < s.fire_remaining_ms,
    ensures
        lane_run(cfg, s, inputs).fire_remaining_ms == s.fire_remaining_ms - elapsed_ms(inputs),
        inputs.len() > 0 ==> lane_open(cfg, s, inputs),
    decreases inputs.len(),
{
    if inputs.len() > 0 {
        lemma_elapsed_nonnegative(inputs.drop_last());
        lemma_firing_persists(cfg, s, inputs.drop_last());
    }
}

/// While the updates span less than the holdoff left, a lane that is not
/// firing stays closed and its holdoff shrinks by the time spanned.
pub proof fn lemma_holdoff_persists(cfg: SprayCfg, s: LaneState, inputs: Seq<LaneInput>)
    requires
        s.fire_remaining_ms == 0,
        elapsed_ms(inputs) < s.cooldown_remaining_ms,
    ensures
        lane_run(cfg, s, inputs).fire_remaining_ms == 0,
        lane_run(cfg, s, inputs).cooldown_remaining_ms == s.cooldown_remaining_ms - elapsed_ms(
            inputs,
        ),
        inputs.len() > 0 ==> !lane_open(cfg, s, inputs),
    decreases inputs.len(),
{
    if inputs.len() > 0 {
        lemma_elapsed_nonnegative(inputs.drop_last());
        lemma_holdoff_persists(cfg, s, inputs.drop_last());
    }
}

/// Updates never span a negative time.
pub proof fn lemma_elapsed_nonnegative(inputs: Seq<LaneInput>)
    ensures
        elapsed_ms(inputs) >= 0,
    decreases inputs.len(),
{
    if inputs.len() > 0 {
        lemma_elapsed_nonnegative(inputs.drop_last());
    }
}

/// A lane that has never fired is in a consistent state, every update
/// keeps a lane consistent, and the valve of a consistent lane is only
/// open while the lane is armed.
pub proof fn law_lane_stays_consistent(cfg: SprayCfg, s: LaneState, ratio: LaneRatio, dt_ms: u32)
    ensures
        LaneState::idle().consistent(),
        s.consistent() ==> lane_step(cfg, s, ratio, dt_ms).0.consistent(),
        s.consistent() && lane_step(cfg, s, ratio, dt_ms).1 ==> lane_step(
            cfg,
            s,
            ratio,
            dt_ms,
        ).0.armed,
{
}

/// Minimum fire time: once an update has triggered a lane, the valve is
/// open after every later update that comes less than `fire_ms` after the
/// trigger, whatever the ratios and however the time is cut into updates.
pub proof fn law_minimum_fire_time(
    cfg: SprayCfg,
    s: LaneState,
    trigger: LaneInput,
    later: Seq<LaneInput>,
)
    requires
        starts_firing(cfg, s, trigger),
        later.len() > 0,
        elapsed_ms(later) < cfg.fire_ms,
    ensures
        lane_open(cfg, lane_step(cfg, s, trigger.ratio, trigger.dt_ms).0, later),
{
    lemma_firing_persists(cfg, lane_step(cfg, s, trigger.ratio, trigger.dt_ms).0, later);
}

/// Holdoff: once an update has ended a lane's fire window, the valve is
/// closed after every later update that comes less than `holdoff_ms` after
/// that end, whatever the ratios and however the time is cut into updates.
pub proof fn law_holdoff_after_fire(
    cfg: SprayCfg,
    s: LaneState,
    closing: LaneInput,
    later: Seq<LaneInput>,
)
    requires
        ends_firing(cfg, s, closing),
        later.len() > 0,
        elapsed_ms(later) < cfg.holdoff_ms,
    ensures
        !lane_open(cfg, lane_step(cfg, s, closing.ratio, closing.dt_ms).0, later),
{
    lemma_holdoff_persists(cfg, lane_step(cfg, s, closing.ratio, closing.dt_ms).0, later);
}

/// Advances one lane by one update.
pub fn step_lane(cfg: &SprayCfg, s: LaneState, ratio: LaneRatio, dt_ms: u32) -> (res: (
    LaneState,
    bool,
))
    ensures
        res == lane_step(*cfg, s, ratio, dt_ms),
{
    if s.fire_remaining_ms > 0 {
        let left: u32 = s.fire_remaining_ms.saturating_sub(dt_ms);
        if left > 0 {
            (
                LaneState {
                    armed: s.armed,
                    fire_remaining_ms: left,
                    cooldown_remaining_ms: s.cooldown_remaining_ms,
                },
                true,
            )
        } else {
            (
                LaneState {
                    armed: s.armed,
                    fire_remaining_ms: 0,
                    cooldown_remaining_ms: cfg.holdoff_ms,
                },
                false,
            )
        }
    } else if s.cooldown_remaining_ms > 0 {
        (
            LaneState {
                armed: s.armed,
                fire_remaining_ms: 0,
                cooldown_remaining_ms: s.cooldown_remaining_ms.saturating_sub(dt_ms),
            },
            false,
        )
    } else if cfg.is_triggered(ratio, s.armed) {
        (LaneState { armed: true, fire_remaining_ms: cfg.fire_ms, cooldown_remaining_ms: 0 }, true)
    } else {
        (LaneState { armed: false, fire_remaining_ms: 0, cooldown_remaining_ms: 0 }, false)
    }
}

/// Timing state machine of the four spray lanes.
pub struct LaneController {
    cfg: SprayCfg,
    lanes: [LaneState; 4],
}

impl LaneController {
    /// The settings the controller was built with.
    pub closed spec fn config(&self) -> SprayCfg {
        self.cfg
    }

    /// The remembered state of lane `i`.
    pub closed spec fn lane(&self, i: int) -> LaneState {
        self.lanes@[i]
    }

    /// A controller whose lanes are all idle and disarmed.
    pub fn new(cfg: SprayCfg) -> (ctrl: Self)
        ensures
            ctrl.config() == cfg,
            forall|i: int| 0 <= i < LANES ==> ctrl.lane(i) == LaneState::idle(),
    {
        let idle = LaneState { armed: false, fire_remaining_ms: 0, cooldown_remaining_ms: 0 };
        LaneController { cfg, lanes: [idle, idle, idle, idle] }
    }

    /// Feeds one frame's ratios and the time since the previous call, and
    /// returns which valves are open. Every lane makes one `lane_step`.
    pub fn update(&mut self, ratios: [LaneRatio; 4], dt_ms: u32) -> (states: [bool; 4])
        ensures
            final(self).config() == old(self).config(),
            forall|i: int|
                0 <= i < LANES ==> {
                    &&& final(self).lane(i) == lane_step(
                        old(self).config(),
                        old(self).lane(i),
                        #[trigger] ratios@[i],
                        dt_ms,
                    ).0
                    &&& states@[i] == lane_step(
                        old(self).config(),
                        old(self).lane(i),
                        ratios@[i],
                        dt_ms,
                    ).1
                },
    {
        let mut states: [bool; 4] = [false, false, false, false];
        let mut i: usize = 0;
        while i < LANES
            invariant
                i <= LANES,
                self.cfg == old(self).cfg,
                forall|k: int| i <= k < LANES ==> self.lanes@[k] == old(self).lanes@[k],
                forall|k: int|
                    0 <= k < i ==> {
                        &&& self.lanes@[k] == lane_step(
                            old(self).cfg,
                            old(self).lanes@[k],
                            #[trigger] ratios@[k],
                            dt_ms,
                        ).0
                        &&& states@[k] == lane_step(
                            old(self).cfg,
                            old(self).lanes@[k],
                            ratios@[k],
                            dt_ms,
                        ).1
                    },
            decreases LANES - i,
        {
            let (next, open) = step_lane(&self.cfg, self.lanes[i], ratios[i], dt_ms);
            self.lanes[i] = next;
            states[i] = open;
            i += 1;
        }
        states
    }

    /// The settings the controller was built with.
    pub fn cfg(&self) -> (cfg: SprayCfg)
        ensures
            cfg == self.config(),
    {
        self.cfg
    }

    /// The remembered state of a lane, for a lane index below four.
    pub fn lane_state(&self, i: usize) -> (state: Option<LaneState>)
        ensures
            state == if i < LANES {
                Some(self.lane(i as int))
            } else {
                None
            },
    {
        if i < LANES {
            Some(self.lanes[i])
        } else {
            None
        }
    }
}

} // verus!
