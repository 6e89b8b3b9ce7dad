//! One bidirectional pin made to behave as an open-drain line.
//!
//! Host and sensor share the data line, and each signals by pulling it low.
//! The line is high only because a pull-up holds it there while nobody pulls:
//! the host must never drive it high.

use vstd::prelude::*;

verus! {

/// A failure of the data pin.
#[derive(Clone, Copy, Debug, PartialEq, Eq, Structural)]
pub struct PinError;

/// What the host does to the line. There is no third state.
#[derive(Clone, Copy, Debug, PartialEq, Eq, Structural)]
pub enum PinState {
    /// The pin is an output and holds the line low.
    DrivingLow,
    /// The pin is an input with its pull-up on: the line floats high and the
    /// sensor can pull it low.
    Released,
}

/// One operation on the underlying pin.
#[derive(Clone, Copy, Debug, PartialEq, Eq, Structural)]
pub enum PinCommand {
    /// Make the pin an output whose level can be read back.
    IntoReadableOutput,
    /// Make the pin an input with its pull-up on.
    IntoPullUpInput,
    /// Drive the output low.
    WriteLow,
    /// Drive the output high. [`InOutPin`] never asks for this.
    WriteHigh,
}

/// What pulling the line low takes: the pin becomes an output first, and
/// only then is it driven low.
pub open spec fn set_low_commands() -> Seq<PinCommand> {
    seq![PinCommand::IntoReadableOutput, PinCommand::WriteLow]
}

/// What letting the line go takes: the pin becomes a pulled-up input, and
/// nothing is written.
pub open spec fn set_high_commands() -> Seq<PinCommand> {
    seq![PinCommand::IntoPullUpInput]
}

/// The open-drain line as the host sees it.
pub struct InOutPin {
    state: PinState,
}

impl View for InOutPin {
    type V = PinState;

    closed spec fn view(&self) -> PinState {
        self.state
    }
}

impl InOutPin {
    /// The line of a pin that is in `state`.
    pub fn new(state: PinState) -> (pin: Self)
        ensures
            pin@ == state,
    {
        Self { state }
    }

    /// What the host does to the line.
    pub fn state(&self) -> (state: PinState)
        ensures
            state == self@,
    {
        self.state
    }

    /// Whether the line is high, given what reading the pin's level gave
    /// (`Ok(true)` for high).
    pub fn is_high(&self, level: Result<bool, PinError>) -> (high: Result<bool, PinError>)
        ensures
            high == level,
    {
        level
    }

    /// Whether the line is low, given what reading the pin's level gave
    /// (`Ok(true)` for high).
    pub fn is_low(&self, level: Result<bool, PinError>) -> (low: Result<bool, PinError>)
        ensures
            low == match level {
                Ok(high) => Ok::<bool, PinError>(!high),
                Err(e) => Err(e),
            },
    {
        match level {
            Ok(high) => Ok(!high),
            Err(e) => Err(e),
        }
    }

    /// Pulls the line low. The commands are to be carried out in order.
    pub fn set_low(&mut self) -> (commands: [PinCommand; 2])
        ensures
            commands@ == set_low_commands(),
            final(self)@ == PinState::DrivingLow,
    {
        self.state = PinState::DrivingLow;
        [PinCommand::IntoReadableOutput, PinCommand::WriteLow]
    }

    /// Lets the line go, so that the pull-up takes it high.
    pub fn set_high(&mut self) -> (commands: [PinCommand; 1])
        ensures
            commands@ == set_high_commands(),
            final(self)@ == PinState::Released,
    {
        self.state = PinState::Released;
        [PinCommand::IntoPullUpInput]
    }
}

/// Neither pulling the line low nor letting it go ever drives the pin high.
pub proof fn lemma_never_driven_high(i: int)
    ensures
        0 <= i < set_low_commands().len() ==> set_low_commands()[i] != PinCommand::WriteHigh,
        0 <= i < set_high_commands().len() ==> set_high_commands()[i] != PinCommand::WriteHigh,
{
}

/// Letting the line go only changes the pin's mode: it writes no level.
pub proof fn lemma_release_writes_nothing(i: int)
    requires
        0 <= i < set_high_commands().len(),
    ensures
        set_high_commands()[i] == PinCommand::IntoPullUpInput,
{
}

} // verus!
