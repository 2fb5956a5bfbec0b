//! The bank of four sprayers: which are open, and what to tell their pins.

use vstd::prelude::*;

verus! {

/// Number of sprayers in the bank.
pub const SPRAYERS: usize = 4;

/// Why a sprayer command was turned down.
#[derive(Debug, Clone, Copy, PartialEq, Eq, Structural)]
pub enum SprayError {
    /// There is no sprayer with this index: valid indices are 0 to 3.
    InvalidIndex(usize),
}

/// What to do to one output pin.
#[derive(Debug, Clone, Copy, PartialEq, Eq, Structural)]
pub struct PinCommand {
    /// GPIO pin number.
    pub pin: u8,
    /// Drive the pin high, which opens the sprayer, or low, which closes
    /// it.
    pub high: bool,
}

/// Controller of the four sprayers. It knows each sprayer's pin and
/// whether the sprayer is open, and answers every request with the pin
/// commands that carry it out.
#[derive(Debug, Clone, Copy)]
pub struct SprayController {
    pins: [u8; 4],
    open: [bool; 4],
}

impl SprayController {
    /// Pin of each sprayer.
    pub closed spec fn pins(&self) -> Seq<u8> {
        self.pins@
    }

    /// Whether each sprayer is open.
    pub closed spec fn open(&self) -> Seq<bool> {
        self.open@
    }

    /// `post` differs from `self` in sprayer `index` at most, which is
    /// open in `post` exactly if `high`; and `cmd` says so to its pin.
    pub open spec fn switched(&self, post: &Self, index: int, high: bool, cmd: PinCommand) -> bool {
        &&& post.pins() == self.pins()
        &&& post.open() == self.open().update(index, high)
        &&& cmd == PinCommand { pin: self.pins()[index], high }
    }

    /// `post` is `self` with every sprayer open exactly if `high`, and
    /// `cmds` say so to the four pins, in order.
    pub open spec fn switched_all(&self, post: &Self, high: bool, cmds: [PinCommand; 4]) -> bool {
        &&& post.pins() == self.pins()
        &&& post.open().len() == SPRAYERS
        &&& forall|i: int| 0 <= i < SPRAYERS ==> post.open()[i] == high
        &&& forall|i: int|
            0 <= i < SPRAYERS ==> #[trigger] cmds@[i] == (PinCommand {
                pin: self.pins()[i],
                high,
            })
    }

    /// A controller of four closed sprayers on the given pins.
    pub fn new(pins: [u8; 4]) -> (ctrl: Self)
        ensures
            ctrl.pins() == pins@,
            ctrl.open().len() == SPRAYERS,
            forall|i: int| 0 <= i < SPRAYERS ==> !ctrl.open()[i],
    {
        SprayController { pins, open: [false, false, false, false] }
    }

    /// Opens or closes one sprayer.
    fn switch(&mut self, index: usize, high: bool) -> (res: Result<PinCommand, SprayError>)
        ensures
            res is Ok <==> index < SPRAYERS,
            res matches Ok(cmd) ==> old(self).switched(final(self), index as int, high, cmd),
            res matches Err(e) ==> e == SprayError::InvalidIndex(index) && *final(self) == *old(
                self,
            ),
    {
        if index >= SPRAYERS {
            return Err(SprayError::InvalidIndex(index));
        }
        self.open[index] = high;
        Ok(PinCommand { pin: self.pins[index], high })
    }

    /// Opens or closes every sprayer.
    fn switch_all(&mut self, high: bool) -> (cmds: [PinCommand; 4])
        ensures
            old(self).switched_all(final(self), high, cmds),
    {
        self.open = [high, high, high, high];
        [
            PinCommand { pin: self.pins[0], high },
            PinCommand { pin: self.pins[1], high },
            PinCommand { pin: self.pins[2], high },
            PinCommand { pin: self.pins[3], high },
        ]
    }

    /// Opens the sprayer with the given index.
    ///
    /// Fails with `InvalidIndex` exactly when the index is 4 or more, and
    /// then changes nothing.
    pub fn activate_sprayer(&mut self, index: usize) -> (res: Result<PinCommand, SprayError>)
        ensures
            res is Ok <==> index < SPRAYERS,
            res matches Ok(cmd) ==> old(self).switched(final(self), index as int, true, cmd),
            res matches Err(e) ==> e == SprayError::InvalidIndex(index) && *final(self) == *old(
                self,
            ),
    {
        self.switch(index, true)
    }

    /// Closes the sprayer with the given index.
    ///
    /// Fails with `InvalidIndex` exactly when the index is 4 or more, and
    /// then changes nothing.
    pub fn deactivate_sprayer(&mut self, index: usize) -> (res: Result<PinCommand, SprayError>)
        ensures
            res is Ok <==> index < SPRAYERS,
            res matches Ok(cmd) ==> old(self).switched(final(self), index as int, false, cmd),
            res matches Err(e) ==> e == SprayError::InvalidIndex(index) && *final(self) == *old(
                self,
            ),
    {
        self.switch(index, false)
    }

    /// Opens all sprayers.
    pub fn activate_all(&mut self) -> (cmds: [PinCommand; 4])
        ensures
            old(self).switched_all(final(self), true, cmds),
    {
        self.switch_all(true)
    }

    /// Closes all sprayers.
    pub fn deactivate_all(&mut self) -> (cmds: [PinCommand; 4])
        ensures
            old(self).switched_all(final(self), false, cmds),
    {
        self.switch_all(false)
    }

    /// Number of sprayers.
    pub fn sprayer_count(&self) -> (count: usize)
        ensures
            count == SPRAYERS,
    {
        SPRAYERS
    }

    /// Whether the sprayer with the given index is open, for an index
    /// below four.
    pub fn is_open(&self, index: usize) -> (open: Option<bool>)
        ensures
            open == if index < SPRAYERS {
                Some(self.open()[index as int])
            } else {
                None
            },
    {
        if index < SPRAYERS {
            Some(self.open[index])
        } else {
            None
        }
    }
}

} // verus!
