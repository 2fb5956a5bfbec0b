//! The actuator: what receives the lanes' ratios and valve states.

use vstd::prelude::*;
use crate::lanes::LaneRatio;

verus! {

/// Why an actuator could not carry out a command.
#[derive(Debug, Clone)]
pub struct ActuatorError(pub String);

/// A four-lane actuator device. It is handed each frame's ratios and valve
/// states once. How long a valve stays open is the timing controller's
/// business: an implementation switches outputs and returns.
pub trait Actuator: Send + 'static {
    /// Drives the four outputs to `states`.
    fn apply(&mut self, ratios: [LaneRatio; 4], states: [bool; 4]) -> Result<(), ActuatorError>;
}

/// Actuator without hardware: it remembers the last command it was given
/// and how many it has seen.
#[derive(Debug, Clone, Copy)]
pub struct MockActuator {
    /// Commands seen so far, up to the largest number that fits.
    pub applied: u64,
    /// Ratios of the last command.
    pub ratios: [LaneRatio; 4],
    /// Valve states of the last command.
    pub states: [bool; 4],
}

impl MockActuator {
    /// A mock that has seen no command: all valves closed.
    pub fn new() -> (mock: Self)
        ensures
            mock.applied == 0,
            forall|i: int| 0 <= i < 4 ==> !mock.states@[i],
            forall|i: int| 0 <= i < 4 ==> mock.ratios@[i] == (LaneRatio { on: 0, total: 0 }),
    {
        let zero = LaneRatio { on: 0, total: 0 };
        MockActuator {
            applied: 0,
            ratios: [zero, zero, zero, zero],
            states: [false, false, false, false],
        }
    }
}

impl Default for MockActuator {
    fn default() -> (mock: Self)
        ensures
            mock.applied == 0,
            forall|i: int| 0 <= i < 4 ==> !mock.states@[i],
            forall|i: int| 0 <= i < 4 ==> mock.ratios@[i] == (LaneRatio { on: 0, total: 0 }),
    {
        MockActuator::new()
    }
}

impl Actuator for MockActuator {
    /// Records the command and always succeeds.
    fn apply(&mut self, ratios: [LaneRatio; 4], states: [bool; 4]) -> (res: Result<
        (),
        ActuatorError,
    >)
        ensures
            res is Ok,
            final(self).ratios == ratios,
            final(self).states == states,
            final(self).applied == if old(self).applied == u64::MAX {
                u64::MAX
            } else {
                (old(self).applied + 1) as u64
            },
    {
        self.applied = self.applied.saturating_add(1);
        self.ratios = ratios;
        self.states = states;
        Ok(())
    }
}

/// A bank of nozzles, one per lane, switched by the lanes' on and off
/// states alone.
pub trait NozzleControl {
    /// Switches nozzle `l` on exactly if `lanes[l]`.
    fn apply(&mut self, lanes: &[bool]) -> Result<(), ActuatorError>;
}

/// Nozzle bank without hardware: it remembers the last states it was
/// given and how many commands it has seen.
#[derive(Debug)]
pub struct MockGpio {
    /// Commands seen so far, up to the largest number that fits.
    pub applied: u64,
    /// Lane states of the last command; empty before the first.
    pub lanes: Vec<bool>,
}

impl MockGpio {
    /// A mock that has seen no command.
    pub fn new() -> (mock: Self)
        ensures
            mock.applied == 0,
            mock.lanes@.len() == 0,
    {
        MockGpio { applied: 0, lanes: Vec::new() }
    }
}

impl Default for MockGpio {
    fn default() -> (mock: Self)
        ensures
            mock.applied == 0,
            mock.lanes@.len() == 0,
    {
        MockGpio::new()
    }
}

impl NozzleControl for MockGpio {
    /// Records the command and always succeeds.
    fn apply(&mut self, lanes: &[bool]) -> (res: Result<(), ActuatorError>)
        ensures
            res is Ok,
            final(self).lanes@ == lanes@,
            final(self).applied == if old(self).applied == u64::MAX {
                u64::MAX
            } else {
                (old(self).applied + 1) as u64
            },
    {
        self.applied = self.applied.saturating_add(1);
        let count: usize = lanes.len();
        let mut copy: Vec<bool> = Vec::with_capacity(count);
        let mut l: usize = 0;
        while l < count
            invariant
                count == lanes@.len(),
                l <= count,
                copy@ == lanes@.take(l as int),
            decreases count - l,
        {
            copy.push(lanes[l]);
            assert(copy@ =~= lanes@.take(l + 1));
            l += 1;
        }
        assert(lanes@.take(count as int) =~= lanes@);
        self.lanes = copy;
        Ok(())
    }
}

} // verus!
