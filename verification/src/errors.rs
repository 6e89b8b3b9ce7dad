//! The faults of one cycle, and how each is signalled.

use crate::io_pin::PinError;
use crate::rgb_led::Channel;
use dht_sensor::DhtError;
use display_interface::DisplayError;
use vstd::prelude::*;
use vstd::std_specs::convert::{FromSpec, FromSpecImpl};

verus! {

/// `dht_sensor::DhtError`: why a read of the sensor failed. Carried along as
/// it came; nothing is read from it.
#[verifier::external_type_specification]
#[verifier::external_body]
#[verifier::reject_recursive_types(E)]
pub struct ExDhtError<E>(DhtError<E>);

/// `display_interface::DisplayError`: why the display could not be driven.
/// Carried along as it came; nothing is read from it.
#[verifier::external_type_specification]
#[verifier::external_body]
pub struct ExDisplayError(DisplayError);

/// `core::fmt::Error`: a line could not be formatted. Carried along as it
/// came; nothing is read from it.
#[verifier::external_type_specification]
#[verifier::external_body]
pub struct ExFmtError(core::fmt::Error);

/// The three kinds of fault. Each has its own blink interval and its own
/// indicator channel.
#[derive(Clone, Copy, Debug, PartialEq, Eq, Structural)]
pub enum FaultKind {
    /// The sensor could not be read: 500 ms, red.
    SensorFault,
    /// A line could not be formatted: 1500 ms, green.
    FormatFault,
    /// The display could not be driven: 1000 ms, blue.
    DisplayFault,
}

/// What made a cycle fail.
#[derive(Debug)]
pub enum Error {
    /// The sensor could not be read.
    Dht(DhtError<PinError>),
    /// The text could not be drawn, or the frame not be sent to the panel.
    Display(DisplayError),
    /// A line could not be formatted.
    Fmt(core::fmt::Error),
}

impl FaultKind {
    /// Half the period of the blink, in milliseconds.
    pub open spec fn spec_interval(self) -> u32 {
        match self {
            FaultKind::SensorFault => 500,
            FaultKind::DisplayFault => 1000,
            FaultKind::FormatFault => 1500,
        }
    }

    /// Half the period of the blink, in milliseconds.
    #[verifier::when_used_as_spec(spec_interval)]
    pub fn interval(self) -> (ms: u32)
        ensures
            ms == self.spec_interval(),
    {
        match self {
            FaultKind::SensorFault => 500,
            FaultKind::DisplayFault => 1000,
            FaultKind::FormatFault => 1500,
        }
    }

    /// The indicator channel that blinks.
    pub open spec fn spec_channel(self) -> Channel {
        match self {
            FaultKind::SensorFault => Channel::Red,
            FaultKind::FormatFault => Channel::Green,
            FaultKind::DisplayFault => Channel::Blue,
        }
    }

    /// The indicator channel that blinks.
    #[verifier::when_used_as_spec(spec_channel)]
    pub fn channel(self) -> (channel: Channel)
        ensures
            channel == self.spec_channel(),
    {
        match self {
            FaultKind::SensorFault => Channel::Red,
            FaultKind::FormatFault => Channel::Green,
            FaultKind::DisplayFault => Channel::Blue,
        }
    }
}

/// Makes a `core::fmt::Error`, a unit struct. Nothing is claimed of it.
#[verifier::external_body]
pub(crate) fn fmt_error() -> core::fmt::Error {
    core::fmt::Error
}

impl Error {
    /// The kind of this fault.
    pub open spec fn spec_kind(&self) -> FaultKind {
        match self {
            Error::Dht(_) => FaultKind::SensorFault,
            Error::Display(_) => FaultKind::DisplayFault,
            Error::Fmt(_) => FaultKind::FormatFault,
        }
    }

    /// The kind of this fault.
    #[verifier::when_used_as_spec(spec_kind)]
    pub fn kind(&self) -> (kind: FaultKind)
        ensures
            kind == self.spec_kind(),
    {
        match self {
            Error::Dht(_) => FaultKind::SensorFault,
            Error::Display(_) => FaultKind::DisplayFault,
            Error::Fmt(_) => FaultKind::FormatFault,
        }
    }

    /// Half the period of the blink that signals this fault, in milliseconds.
    pub fn error_interval(&self) -> (ms: u32)
        ensures
            ms == self.kind().interval(),
    {
        match self {
            Self::Dht(_) => 500,
            Self::Display(_) => 1000,
            Self::Fmt(_) => 1500,
        }
    }
}

impl From<DhtError<PinError>> for Error {
    fn from(value: DhtError<PinError>) -> (error: Self) {
        Self::Dht(value)
    }
}

impl FromSpecImpl<DhtError<PinError>> for Error {
    open spec fn obeys_from_spec() -> bool {
        true
    }

    open spec fn from_spec(value: DhtError<PinError>) -> Self {
        Self::Dht(value)
    }
}

impl From<DisplayError> for Error {
    fn from(value: DisplayError) -> (error: Self) {
        Self::Display(value)
    }
}

impl FromSpecImpl<DisplayError> for Error {
    open spec fn obeys_from_spec() -> bool {
        true
    }

    open spec fn from_spec(value: DisplayError) -> Self {
        Self::Display(value)
    }
}

impl From<core::fmt::Error> for Error {
    fn from(value: core::fmt::Error) -> (error: Self) {
        Self::Fmt(value)
    }
}

impl FromSpecImpl<core::fmt::Error> for Error {
    open spec fn obeys_from_spec() -> bool {
        true
    }

    open spec fn from_spec(value: core::fmt::Error) -> Self {
        Self::Fmt(value)
    }
}

/// The error that `Error::from` makes of a failed read of the sensor.
pub open spec fn classified(failure: DhtError<PinError>) -> Error {
    <Error as FromSpec<DhtError<PinError>>>::from_spec(failure)
}

/// Whatever made the read of the sensor fail, a bad pin, a bad checksum or
/// silence, it is a sensor fault, to be signalled on the red channel with
/// 500 ms on and 500 ms off.
pub proof fn lemma_every_read_failure_is_a_sensor_fault(failure: DhtError<PinError>)
    ensures
        classified(failure) == Error::Dht(failure),
        classified(failure).kind() == FaultKind::SensorFault,
        classified(failure).kind().channel() == Channel::Red,
        classified(failure).kind().interval() == 500,
{
}

} // verus!
