//! The tri-colour indicator.

use vstd::prelude::*;

verus! {

/// One of the indicator's three channels.
#[derive(Clone, Copy, Debug, PartialEq, Eq, Structural)]
pub enum Channel {
    Red,
    Green,
    Blue,
}

/// The level of each channel: `true` for high.
#[derive(Clone, Copy, Debug, PartialEq, Eq, Structural)]
pub struct RgbLed {
    pub red: bool,
    pub green: bool,
    pub blue: bool,
}

impl RgbLed {
    /// This indicator with `channel` at the level `high`.
    pub open spec fn with(self, channel: Channel, high: bool) -> RgbLed {
        match channel {
            Channel::Red => RgbLed { red: high, ..self },
            Channel::Green => RgbLed { green: high, ..self },
            Channel::Blue => RgbLed { blue: high, ..self },
        }
    }

    /// The level of `channel`.
    pub open spec fn spec_level(&self, channel: Channel) -> bool {
        match channel {
            Channel::Red => self.red,
            Channel::Green => self.green,
            Channel::Blue => self.blue,
        }
    }

    /// An indicator whose channels are at these levels.
    pub fn new(red: bool, green: bool, blue: bool) -> (led: RgbLed)
        ensures
            led == (RgbLed { red, green, blue }),
    {
        RgbLed { red, green, blue }
    }

    /// The level of `channel`.
    #[verifier::when_used_as_spec(spec_level)]
    pub fn level(&self, channel: Channel) -> (high: bool)
        ensures
            high == self.spec_level(channel),
    {
        match channel {
            Channel::Red => self.red,
            Channel::Green => self.green,
            Channel::Blue => self.blue,
        }
    }

    /// Puts `channel` at the level `high` and leaves the others.
    pub fn set(&mut self, channel: Channel, high: bool)
        ensures
            *final(self) == old(self).with(channel, high),
    {
        match channel {
            Channel::Red => {
                self.red = high;
            },
            Channel::Green => {
                self.green = high;
            },
            Channel::Blue => {
                self.blue = high;
            },
        }
    }
}

} // verus!
