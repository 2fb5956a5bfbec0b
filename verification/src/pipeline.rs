//! The per-frame sequence: mask, reduce, time-gate, actuate.

use vstd::prelude::*;
use crate::config::SprayCfg;
use crate::error::InvalidInput;
use crate::frame::Frame;
use crate::io_gpio::Actuator;
use crate::io_gpio::ActuatorError;
use crate::io_gpio::NozzleControl;
use crate::lanes::reduce_lanes;
use crate::lanes::reduces_to;
use crate::lanes::lane_ratio;
use crate::lanes::lane_switch;
use crate::lanes::reduce_error;
use crate::lanes::LaneRatio;
use crate::lanes::LaneReducer;
use crate::timing::lane_step;
use crate::timing::LaneController;
use crate::units::LANES;
use crate::units::PPM;
use crate::vision::PlantVision;
use crate::vision::VegetationMask;

verus! {

/// What the pipeline decided for one frame, before anything is actuated.
#[derive(Debug, Clone, Copy)]
pub struct Decision {
    /// Ratio of each lane in this frame.
    pub ratios: [LaneRatio; 4],
    /// Whether each lane's valve is to be open.
    pub states: [bool; 4],
    /// Time in ms that the timing controller was advanced by.
    pub dt_ms: u32,
}

/// What became of one frame.
#[derive(Debug, Clone)]
pub struct FrameReport {
    /// Ratio of each lane in this frame.
    pub ratios: [LaneRatio; 4],
    /// Whether each lane's valve was to be open.
    pub states: [bool; 4],
    /// Time in ms that the timing controller was advanced by.
    pub dt_ms: u32,
    /// The actuator's error, where it failed to carry the states out.
    pub actuator_error: Option<ActuatorError>,
}

/// Time in ms by which the controller is advanced for a frame stamped
/// `now_ms`: zero for the first frame, else the time since the previous
/// frame, never negative and cut off at the largest `u32`.
pub open spec fn frame_dt(last_ms: Option<u64>, now_ms: u64) -> u32 {
    match last_ms {
        None => 0,
        Some(prev) => if now_ms <= prev {
            0
        } else if now_ms - prev > u32::MAX {
            u32::MAX
        } else {
            (now_ms - prev) as u32
        },
    }
}

/// Computes `frame_dt`.
pub fn elapsed_since(last_ms: Option<u64>, now_ms: u64) -> (dt_ms: u32)
    ensures
        dt_ms == frame_dt(last_ms, now_ms),
{
    match last_ms {
        None => 0,
        Some(prev) => {
            if now_ms <= prev {
                0
            } else {
                let diff: u64 = now_ms - prev;
                if diff > u32::MAX as u64 {
                    u32::MAX
                } else {
                    diff as u32
                }
            }
        },
    }
}

/// Puts the actuator's outcome beside the decision it was handed.
pub fn report_frame(decision: Decision, outcome: Result<(), ActuatorError>) -> (report: FrameReport)
    ensures
        report.ratios == decision.ratios,
        report.states == decision.states,
        report.dt_ms == decision.dt_ms,
        report.actuator_error == match outcome {
            Ok(_) => None,
            Err(e) => Some(e),
        },
{
    FrameReport {
        ratios: decision.ratios,
        states: decision.states,
        dt_ms: decision.dt_ms,
        actuator_error: match outcome {
            Ok(_) => None,
            Err(e) => Some(e),
        },
    }
}

/// The synchronous pipeline: an outside loop hands it one frame after the
/// other, in the order in which they were taken.
pub struct Pipeline<A: Actuator> {
    mask: VegetationMask,
    controller: LaneController,
    actuator: A,
    last_ms: Option<u64>,
}

impl<A: Actuator> Pipeline<A> {
    /// The way pixels are classified.
    pub closed spec fn strategy(&self) -> VegetationMask {
        self.mask
    }

    /// The timing controller with its lanes' states.
    pub closed spec fn controller(&self) -> LaneController {
        self.controller
    }

    /// Time stamp of the last frame that was processed, if any.
    pub closed spec fn last_ms(&self) -> Option<u64> {
        self.last_ms
    }

    /// The actuator as it stands.
    pub closed spec fn device(&self) -> A {
        self.actuator
    }

    /// The settings the pipeline was built with.
    pub open spec fn config(&self) -> SprayCfg {
        self.controller().config()
    }

    /// `post` is `self` after it has decided on `frame` at time `now_ms`
    /// with the given outcome: the ratios are those of the frame's mask,
    /// every lane has made one step over its ratio and the time since the
    /// previous frame, and the time stamp is remembered.
    pub open spec fn decided(
        &self,
        post: &Self,
        frame: &Frame,
        now_ms: u64,
        ratios: [LaneRatio; 4],
        states: [bool; 4],
        dt_ms: u32,
    ) -> bool {
        let mask = self.strategy().mask_spec(frame.spec_rgb());
        let cfg = self.config();
        &&& post.strategy() == self.strategy()
        &&& post.config() == cfg
        &&& post.last_ms() == Some(now_ms)
        &&& dt_ms == frame_dt(self.last_ms(), now_ms)
        &&& reduces_to(
            mask,
            frame.spec_width() as int,
            frame.spec_height() as int,
            cfg.bottom_frac as int,
            LANES as int,
            ratios@,
        )
        &&& forall|l: int|
            0 <= l < LANES ==> {
                &&& #[trigger] post.controller().lane(l) == lane_step(
                    cfg,
                    self.controller().lane(l),
                    ratios@[l],
                    dt_ms,
                ).0
                &&& states@[l] == lane_step(cfg, self.controller().lane(l), ratios@[l], dt_ms).1
            }
    }

    /// `post` remembers what `self` remembers: same strategy, settings,
    /// lane states and time stamp.
    pub open spec fn same_memory(&self, post: &Self) -> bool {
        &&& post.strategy() == self.strategy()
        &&& post.config() == self.config()
        &&& post.last_ms() == self.last_ms()
        &&& forall|l: int|
            0 <= l < LANES ==> #[trigger] post.controller().lane(l) == self.controller().lane(l)
    }

    /// A pipeline that has seen no frame: all lanes idle and disarmed.
    pub fn new(mask: VegetationMask, cfg: SprayCfg, actuator: A) -> (pipeline: Self)
        ensures
            pipeline.strategy() == mask,
            pipeline.config() == cfg,
            pipeline.last_ms() is None,
            forall|l: int|
                0 <= l < LANES ==> #[trigger] pipeline.controller().lane(l)
                    == crate::timing::LaneState::idle(),
    {
        Pipeline { mask, controller: LaneController::new(cfg), actuator, last_ms: None }
    }

    /// A pipeline that classifies pixels by excess green against the
    /// settings' threshold.
    pub fn with_threshold(cfg: SprayCfg, actuator: A) -> (pipeline: Self)
        ensures
            pipeline.strategy() == VegetationMask::Threshold(cfg.thr),
            pipeline.config() == cfg,
            pipeline.last_ms() is None,
            forall|l: int|
                0 <= l < LANES ==> #[trigger] pipeline.controller().lane(l)
                    == crate::timing::LaneState::idle(),
    {
        Pipeline::new(VegetationMask::Threshold(cfg.thr), cfg, actuator)
    }

    /// Masks and reduces one frame and advances the timing controller,
    /// without actuating anything.
    ///
    /// Fails with `TooManyLanes` exactly when the frame has fewer than four
    /// columns, and then remembers nothing of the frame.
    pub fn decide(&mut self, frame: &Frame, now_ms: u64) -> (res: Result<Decision, InvalidInput>)
        ensures
            res is Ok <==> frame.spec_width() >= LANES,
            res matches Ok(d) ==> old(self).decided(
                final(self),
                frame,
                now_ms,
                d.ratios,
                d.states,
                d.dt_ms,
            ),
            res matches Err(e) ==> e == InvalidInput::TooManyLanes && old(self).same_memory(
                final(self),
            ),
            final(self).device() == old(self).device(),
    {
        let width: usize = frame.width();
        let height: usize = frame.height();
        if width < LANES {
            return Err(InvalidInput::TooManyLanes);
        }
        let mask = self.mask.classify(frame);
        let cfg: SprayCfg = self.controller.cfg();
        let ratios = match reduce_lanes(mask.as_slice(), width, height, cfg.bottom_frac) {
            Ok(ratios) => ratios,
            Err(e) => {
                return Err(e);
            },
        };
        let dt_ms: u32 = elapsed_since(self.last_ms, now_ms);
        let states = self.controller.update(ratios, dt_ms);
        self.last_ms = Some(now_ms);
        Ok(Decision { ratios, states, dt_ms })
    }

    /// Processes one frame: mask, reduce, advance the timing controller by
    /// the time since the previous frame, and hand the valve states to the
    /// actuator.
    ///
    /// Fails with `TooManyLanes` exactly when the frame has fewer than four
    /// columns; the actuator is then not called and nothing is remembered
    /// of the frame. An actuator that fails does not fail the frame: its
    /// error is reported beside the decision, and the timing goes on.
    pub fn process(&mut self, frame: &Frame, now_ms: u64) -> (res: Result<FrameReport, InvalidInput>)
        ensures
            res is Ok <==> frame.spec_width() >= LANES,
            res matches Ok(report) ==> old(self).decided(
                final(self),
                frame,
                now_ms,
                report.ratios,
                report.states,
                report.dt_ms,
            ),
            res matches Err(e) ==> e == InvalidInput::TooManyLanes && old(self).same_memory(
                final(self),
            ),
    {
        match self.decide(frame, now_ms) {
            Ok(decision) => {
                let outcome = self.actuator.apply(decision.ratios, decision.states);
                Ok(report_frame(decision, outcome))
            },
            Err(e) => Err(e),
        }
    }

    /// The actuator, for a look at what it holds.
    pub fn actuator(&self) -> (actuator: &A)
        ensures
            *actuator == self.device(),
    {
        &self.actuator
    }

    /// Takes the pipeline apart and hands the actuator back.
    pub fn into_actuator(self) -> (actuator: A)
        ensures
            actuator == self.device(),
    {
        self.actuator
    }
}

/// The pipeline without a timing controller: the hybrid mask, the
/// switching reducer, and a nozzle bank, for frames of one fixed geometry.
pub struct SwitchingPipeline<N: NozzleControl> {
    reducer: LaneReducer,
    gpio: N,
    vision: PlantVision,
    width: usize,
    height: usize,
}

impl<N: NozzleControl> SwitchingPipeline<N> {
    /// The switching reducer with its lanes' states.
    pub closed spec fn reducer(&self) -> LaneReducer {
        self.reducer
    }

    /// The detector that classifies the pixels.
    pub closed spec fn vision(&self) -> PlantVision {
        self.vision
    }

    /// The nozzle bank as it stands.
    pub closed spec fn nozzles(&self) -> N {
        self.gpio
    }

    /// Number of columns of the frames.
    pub closed spec fn frame_width(&self) -> usize {
        self.width
    }

    /// Number of rows of the frames.
    pub closed spec fn frame_height(&self) -> usize {
        self.height
    }

    /// The reason for which a frame of `len` bytes is turned down, if any:
    /// a buffer that does not hold `width * height` pixels, or a geometry
    /// that the reducer turns down.
    pub open spec fn frame_error(&self, len: int) -> Option<InvalidInput> {
        if len != self.frame_width() * self.frame_height() * 3 {
            Some(InvalidInput::FrameSize)
        } else {
            reduce_error(
                self.frame_width() * self.frame_height(),
                self.frame_width() as int,
                self.frame_height() as int,
                self.reducer().lane_count() as int,
            )
        }
    }

    /// A pipeline for frames of `width` by `height` pixels.
    pub fn new(reducer: LaneReducer, gpio: N, vision: PlantVision, width: usize, height: usize) -> (pipeline:
        Self)
        ensures
            pipeline.reducer() == reducer,
            pipeline.vision() == vision,
            pipeline.frame_width() == width,
            pipeline.frame_height() == height,
    {
        SwitchingPipeline { reducer, gpio, vision, width, height }
    }

    /// Processes one interleaved RGB frame: mask, reduce and switch, and
    /// hand the lanes' states to the nozzle bank.
    ///
    /// Fails exactly on the frames that `frame_error` names; the nozzle
    /// bank is then not called and the lanes stay as they were. Otherwise
    /// the lanes are switched as the reducer switches them over the
    /// frame's hybrid mask, and the result comes back with the nozzle
    /// bank's error, where it failed.
    pub fn process(&mut self, frame: &[u8]) -> (res: Result<
        (Vec<bool>, Option<ActuatorError>),
        InvalidInput,
    >)
        ensures
            final(self).vision() == old(self).vision(),
            final(self).frame_width() == old(self).frame_width(),
            final(self).frame_height() == old(self).frame_height(),
            final(self).reducer().lane_count() == old(self).reducer().lane_count(),
            final(self).reducer().on_threshold() == old(self).reducer().on_threshold(),
            final(self).reducer().off_threshold() == old(self).reducer().off_threshold(),
            match res {
                Ok((lanes, _)) => {
                    &&& old(self).frame_error(frame@.len() as int) is None
                    &&& final(self).reducer().state() == lanes@
                    &&& lanes@.len() == old(self).reducer().lane_count()
                    &&& forall|l: int|
                        0 <= l < lanes@.len() ==> #[trigger] lanes@[l] == lane_switch(
                            old(self).reducer().state()[l],
                            lane_ratio(
                                old(self).vision().mask_spec(frame@),
                                old(self).frame_width() as int,
                                old(self).frame_height() as int,
                                PPM as int,
                                old(self).reducer().lane_count() as int,
                                l,
                            ),
                            old(self).reducer().on_threshold(),
                            old(self).reducer().off_threshold(),
                        )
                },
                Err(e) => {
                    &&& old(self).frame_error(frame@.len() as int) == Some(e)
                    &&& final(self).reducer().state() == old(self).reducer().state()
                },
            },
    {
        let len: usize = frame.len();
        let bytes: Option<usize> = match self.width.checked_mul(self.height) {
            Some(pixels) => pixels.checked_mul(3),
            None => None,
        };
        match bytes {
            Some(bytes) => {
                if bytes != len {
                    return Err(InvalidInput::FrameSize);
                }
            },
            None => {
                assert(self.width * self.height * 3 > len) by (nonlinear_arith)
                    requires
                        self.width * self.height > usize::MAX || self.width * self.height * 3
                            > usize::MAX,
                        len <= usize::MAX,
                        self.width >= 0,
                        self.height >= 0,
                ;
                return Err(InvalidInput::FrameSize);
            },
        }
        assert(len % 3 == 0 && len / 3 == self.width * self.height) by (nonlinear_arith)
            requires
                len == self.width * self.height * 3,
        ;
        let mask = match self.vision.detect(frame) {
            Ok(mask) => mask,
            Err(e) => {
                return Err(e);
            },
        };
        let lanes = match self.reducer.reduce(mask.as_slice(), self.width, self.height) {
            Ok(lanes) => lanes,
            Err(e) => {
                return Err(e);
            },
        };
        let outcome = self.gpio.apply(lanes.as_slice());
        let error = match outcome {
            Ok(_) => None,
            Err(e) => Some(e),
        };
        Ok((lanes, error))
    }

    /// The nozzle bank, for a look at what it holds.
    pub fn gpio(&self) -> (gpio: &N)
        ensures
            *gpio == self.nozzles(),
    {
        &self.gpio
    }
}

} // verus!
