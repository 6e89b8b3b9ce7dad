//! The station's board: what it asks of the hardware, and in what order.
//!
//! The board never touches the hardware. It names one [`Action`] at a time;
//! whoever drives the hardware carries it out and hands back a [`Reply`],
//! from which the board decides the next action.

use crate::display::{lemma_ascii_is_text, FmtBuf};
use crate::errors::{Error, FaultKind};
use crate::io_pin::{InOutPin, PinError};
use crate::reading::{lemma_tenths_is_short_ascii, tenths, write_tenths, Measurement};
use crate::rgb_led::{Channel, RgbLed};
use crate::{line_text, write_formatted_line, DHT_DELAY_MS};
use dht_sensor::DhtError;
use display_interface::DisplayError;
use vstd::prelude::*;
use vstd::string::StringSliceAdditionalSpecFns;
use vstd::utf8::{
    encode_utf8_valid_utf8, is_ascii_chars_encode_utf8, valid_utf8, valid_utf8_concat,
};

verus! {

/// One thing for the hardware to do.
#[derive(Clone, Copy, Debug, PartialEq, Eq, Structural)]
pub enum Action {
    /// Blank the frame buffer. Cannot fail.
    ClearDisplay,
    /// Read the sensor over the data line.
    ReadSensor,
    /// Draw the text of the line buffer into the frame buffer, its top left
    /// corner at (`x`, `y`).
    DrawLine { x: i32, y: i32 },
    /// Send the frame buffer to the panel.
    Flush,
    /// Put one channel of the indicator at a level. Cannot fail.
    SetLed { channel: Channel, high: bool },
    /// Do nothing for `ms` milliseconds. Cannot fail.
    Delay { ms: u32 },
}

/// How an [`Action`] went.
#[derive(Debug)]
pub enum Reply {
    /// It was carried out. The answer to every action but
    /// [`Action::ReadSensor`].
    Done,
    /// The sensor was read.
    Reading(Measurement),
    /// The sensor could not be read.
    SensorFailed(DhtError<PinError>),
    /// The text could not be drawn, or the frame not be sent.
    DisplayFailed(DisplayError),
}

/// The three states of the control loop.
#[derive(Clone, Copy, Debug, PartialEq, Eq, Structural)]
pub enum Phase {
    /// A reading is being taken, or the sensor given time to settle before
    /// the first.
    Sampling,
    /// A reading is being put on the display, and left there for a while.
    Rendering,
    /// A fault is being blinked.
    Signaling,
}

/// Where the board stands: which action it has asked for and awaits the
/// reply to.
#[derive(Clone, Copy, Debug, PartialEq, Eq, Structural)]
pub enum Stage {
    /// [`Action::Delay`] that lets the sensor settle. A board starts here.
    Settling,
    /// [`Action::ClearDisplay`]. A cycle starts here.
    Clearing,
    /// [`Action::ReadSensor`].
    Reading,
    /// [`Action::DrawLine`] for the temperature. The reading is kept for the
    /// line that follows.
    DrawingTemp(Measurement),
    /// [`Action::DrawLine`] for the humidity.
    DrawingHumid,
    /// [`Action::Flush`].
    Flushing,
    /// [`Action::Delay`] between two readings.
    Waiting,
    /// [`Action::SetLed`] that turns the fault's channel on.
    LedOn(FaultKind),
    /// [`Action::Delay`] with the channel on.
    OnDelay(FaultKind),
    /// [`Action::SetLed`] that turns the channel off again.
    LedOff(FaultKind),
    /// [`Action::Delay`] with the channel off.
    OffDelay(FaultKind),
}

/// What one step of a cycle led to.
#[derive(Debug)]
pub enum Progress {
    /// The cycle goes on with this action.
    Next(Action),
    /// The cycle is over: the reading is on the panel, or it failed.
    Finished(Result<(), Error>),
}

/// The blink that signals a fault of this kind: its channel on, a pause,
/// the channel off, the same pause.
pub open spec fn blink(kind: FaultKind) -> Seq<Action> {
    seq![
        Action::SetLed { channel: kind.channel(), high: true },
        Action::Delay { ms: kind.interval() },
        Action::SetLed { channel: kind.channel(), high: false },
        Action::Delay { ms: kind.interval() },
    ]
}

/// The levels of the indicator once `action` is carried out.
pub open spec fn lit(leds: RgbLed, action: Action) -> RgbLed {
    match action {
        Action::SetLed { channel, high } => leds.with(channel, high),
        _ => leds,
    }
}

impl Stage {
    /// Whether the stage is one of a cycle, from clearing the frame to
    /// sending it.
    pub open spec fn in_cycle(self) -> bool {
        self is Clearing || self is Reading || self is DrawingTemp || self is DrawingHumid
            || self is Flushing
    }

    /// Whether `reply` answers the action that is awaited at this stage.
    pub open spec fn accepts(self, reply: Reply) -> bool {
        match self {
            Stage::Reading => reply is Reading || reply is SensorFailed,
            Stage::DrawingTemp(_) | Stage::DrawingHumid | Stage::Flushing => reply is Done
                || reply is DisplayFailed,
            _ => reply is Done,
        }
    }

    /// The action that is awaited at this stage.
    pub open spec fn spec_pending(self) -> Action {
        match self {
            Stage::Settling => Action::Delay { ms: DHT_DELAY_MS },
            Stage::Clearing => Action::ClearDisplay,
            Stage::Reading => Action::ReadSensor,
            Stage::DrawingTemp(_) => Action::DrawLine { x: 0, y: 0 },
            Stage::DrawingHumid => Action::DrawLine { x: 0, y: 16 },
            Stage::Flushing => Action::Flush,
            Stage::Waiting => Action::Delay { ms: DHT_DELAY_MS },
            Stage::LedOn(kind) => blink(kind)[0],
            Stage::OnDelay(kind) => blink(kind)[1],
            Stage::LedOff(kind) => blink(kind)[2],
            Stage::OffDelay(kind) => blink(kind)[3],
        }
    }

    /// The state of the control loop that this stage belongs to.
    pub open spec fn spec_phase(self) -> Phase {
        match self {
            Stage::Settling | Stage::Clearing | Stage::Reading => Phase::Sampling,
            Stage::DrawingTemp(_) | Stage::DrawingHumid | Stage::Flushing | Stage::Waiting =>
                Phase::Rendering,
            Stage::LedOn(_) | Stage::OnDelay(_) | Stage::LedOff(_) | Stage::OffDelay(_) =>
                Phase::Signaling,
        }
    }

    /// What the line buffer holds once `reply` was taken at this stage, if
    /// it held `held` before.
    pub open spec fn held_after(self, reply: Reply, held: Seq<u8>) -> Seq<u8> {
        match (self, reply) {
            (Stage::Clearing, Reply::Done) => Seq::empty(),
            (Stage::Reading, Reply::Reading(reading)) => line_text(
                held,
                "Temp".spec_bytes(),
                tenths(reading.temperature as int),
            ),
            (Stage::DrawingTemp(reading), Reply::Done) => line_text(
                Seq::empty(),
                "Humid".spec_bytes(),
                tenths(reading.relative_humidity as int),
            ),
            (Stage::DrawingHumid, Reply::Done) => Seq::empty(),
            _ => held,
        }
    }

    /// The stage that follows this one on `reply`, if the line buffer held
    /// `held`. A reply that does not answer leaves the stage as it is.
    pub open spec fn after(self, reply: Reply, held: Seq<u8>) -> Stage {
        match (self, reply) {
            (Stage::Settling, Reply::Done) => Stage::Clearing,
            (Stage::Clearing, Reply::Done) => Stage::Reading,
            (Stage::Reading, Reply::Reading(reading)) => if valid_utf8(
                self.held_after(reply, held),
            ) {
                Stage::DrawingTemp(reading)
            } else {
                Stage::LedOn(FaultKind::FormatFault)
            },
            (Stage::Reading, Reply::SensorFailed(_)) => Stage::LedOn(FaultKind::SensorFault),
            (Stage::DrawingTemp(_), Reply::Done) => if valid_utf8(self.held_after(reply, held)) {
                Stage::DrawingHumid
            } else {
                Stage::LedOn(FaultKind::FormatFault)
            },
            (Stage::DrawingTemp(_), Reply::DisplayFailed(_)) => Stage::LedOn(
                FaultKind::DisplayFault,
            ),
            (Stage::DrawingHumid, Reply::Done) => Stage::Flushing,
            (Stage::DrawingHumid, Reply::DisplayFailed(_)) => Stage::LedOn(FaultKind::DisplayFault),
            (Stage::Flushing, Reply::Done) => Stage::Waiting,
            (Stage::Flushing, Reply::DisplayFailed(_)) => Stage::LedOn(FaultKind::DisplayFault),
            (Stage::Waiting, Reply::Done) => Stage::Clearing,
            (Stage::LedOn(kind), Reply::Done) => Stage::OnDelay(kind),
            (Stage::OnDelay(kind), Reply::Done) => Stage::LedOff(kind),
            (Stage::LedOff(kind), Reply::Done) => Stage::OffDelay(kind),
            (Stage::OffDelay(_), Reply::Done) => Stage::Clearing,
            _ => self,
        }
    }

    /// The action that is awaited at this stage.
    #[verifier::when_used_as_spec(spec_pending)]
    pub fn pending(self) -> (action: Action)
        ensures
            action == self.spec_pending(),
    {
        match self {
            Stage::Settling => Action::Delay { ms: DHT_DELAY_MS },
            Stage::Clearing => Action::ClearDisplay,
            Stage::Reading => Action::ReadSensor,
            Stage::DrawingTemp(_) => Action::DrawLine { x: 0, y: 0 },
            Stage::DrawingHumid => Action::DrawLine { x: 0, y: 16 },
            Stage::Flushing => Action::Flush,
            Stage::Waiting => Action::Delay { ms: DHT_DELAY_MS },
            Stage::LedOn(kind) => Action::SetLed { channel: kind.channel(), high: true },
            Stage::OnDelay(kind) => Action::Delay { ms: kind.interval() },
            Stage::LedOff(kind) => Action::SetLed { channel: kind.channel(), high: false },
            Stage::OffDelay(kind) => Action::Delay { ms: kind.interval() },
        }
    }

    /// The state of the control loop that this stage belongs to.
    #[verifier::when_used_as_spec(spec_phase)]
    pub fn phase(self) -> (phase: Phase)
        ensures
            phase == self.spec_phase(),
    {
        match self {
            Stage::Settling | Stage::Clearing | Stage::Reading => Phase::Sampling,
            Stage::DrawingTemp(_) | Stage::DrawingHumid | Stage::Flushing | Stage::Waiting =>
                Phase::Rendering,
            Stage::LedOn(_) | Stage::OnDelay(_) | Stage::LedOff(_) | Stage::OffDelay(_) =>
                Phase::Signaling,
        }
    }
}

/// The station: the data line to the sensor, the indicator, and the stage
/// the board stands at.
pub struct WlanTempSensorBoard {
    /// The data line to the sensor.
    pub dht_data_pin: InOutPin,
    /// The levels the indicator's channels have once the action asked for
    /// is carried out.
    pub rgb_led: RgbLed,
    /// The action asked for.
    pub stage: Stage,
}

impl WlanTempSensorBoard {
    /// A board that starts by letting the sensor settle: the first action it
    /// asks for is a delay of [`DHT_DELAY_MS`].
    pub fn new(dht_data_pin: InOutPin, rgb_led: RgbLed) -> (board: Self)
        ensures
            board.dht_data_pin == dht_data_pin,
            board.rgb_led == rgb_led,
            board.stage == Stage::Settling,
    {
        Self { dht_data_pin, rgb_led, stage: Stage::Settling }
    }

    /// Takes one step of a cycle: clear the frame, empty the line buffer and
    /// read the sensor, draw the temperature, draw the humidity, send the
    /// frame. `reply` answers the action asked for last.
    ///
    /// Returns `None`, and changes nothing, if the board is at no stage of a
    /// cycle or if `reply` does not answer. The first failure ends the cycle
    /// with its error; a line that is not text ends it with [`Error::Fmt`].
    /// When the cycle is over the board stands where the next one starts, at
    /// [`Stage::Clearing`].
    pub fn display_measurement(&mut self, buf: &mut FmtBuf, reply: Reply) -> (progress: Option<
        Progress,
    >)
        ensures
            final(self).dht_data_pin == old(self).dht_data_pin,
            final(self).rgb_led == old(self).rgb_led,
            progress is Some <==> old(self).stage.in_cycle() && old(self).stage.accepts(reply),
            progress is None ==> final(self).stage == old(self).stage && final(buf)@ == old(buf)@,
            progress is Some ==> final(buf)@ == old(self).stage.held_after(reply, old(buf)@),
            progress is Some ==> final(self).stage == (if old(self).stage.after(
                reply,
                old(buf)@,
            ).in_cycle() {
                old(self).stage.after(reply, old(buf)@)
            } else {
                Stage::Clearing
            }),
            progress is Some ==> cycle_reports(
                old(self).stage,
                reply,
                old(buf)@,
                progress->Some_0,
            ),
    {
        match (self.stage, reply) {
            (Stage::Clearing, Reply::Done) => {
                buf.reset();
                self.stage = Stage::Reading;
                Some(Progress::Next(Action::ReadSensor))
            },
            (Stage::Reading, Reply::Reading(reading)) => {
                match write_reading_line(buf, "Temp", reading.temperature as i32, 0) {
                    Ok(action) => {
                        self.stage = Stage::DrawingTemp(reading);
                        Some(Progress::Next(action))
                    },
                    Err(e) => {
                        self.stage = Stage::Clearing;
                        Some(Progress::Finished(Err(e)))
                    },
                }
            },
            (Stage::Reading, Reply::SensorFailed(e)) => {
                self.stage = Stage::Clearing;
                Some(Progress::Finished(Err(Error::from(e))))
            },
            (Stage::DrawingTemp(reading), Reply::Done) => {
                buf.reset();
                match write_reading_line(buf, "Humid", reading.relative_humidity as i32, 1) {
                    Ok(action) => {
                        self.stage = Stage::DrawingHumid;
                        Some(Progress::Next(action))
                    },
                    Err(e) => {
                        self.stage = Stage::Clearing;
                        Some(Progress::Finished(Err(e)))
                    },
                }
            },
            (Stage::DrawingHumid, Reply::Done) => {
                buf.reset();
                self.stage = Stage::Flushing;
                Some(Progress::Next(Action::Flush))
            },
            (Stage::Flushing, Reply::Done) => {
                self.stage = Stage::Clearing;
                Some(Progress::Finished(Ok(())))
            },
            (Stage::DrawingTemp(_), Reply::DisplayFailed(e)) => {
                self.stage = Stage::Clearing;
                Some(Progress::Finished(Err(Error::from(e))))
            },
            (Stage::DrawingHumid, Reply::DisplayFailed(e)) => {
                self.stage = Stage::Clearing;
                Some(Progress::Finished(Err(Error::from(e))))
            },
            (Stage::Flushing, Reply::DisplayFailed(e)) => {
                self.stage = Stage::Clearing;
                Some(Progress::Finished(Err(Error::from(e))))
            },
            _ => None,
        }
    }

    /// The blink that signals `error`: its channel on, a pause of its
    /// interval, the channel off, the same pause.
    pub fn blink_error_led(&self, error: &Error) -> (plan: [Action; 4])
        ensures
            plan@ == blink(error.kind()),
    {
        let interval = error.error_interval();
        let plan = match error {
            Error::Dht(_) => [
                Action::SetLed { channel: Channel::Red, high: true },
                Action::Delay { ms: interval },
                Action::SetLed { channel: Channel::Red, high: false },
                Action::Delay { ms: interval },
            ],
            Error::Fmt(_) => [
                Action::SetLed { channel: Channel::Green, high: true },
                Action::Delay { ms: interval },
                Action::SetLed { channel: Channel::Green, high: false },
                Action::Delay { ms: interval },
            ],
            Error::Display(_) => [
                Action::SetLed { channel: Channel::Blue, high: true },
                Action::Delay { ms: interval },
                Action::SetLed { channel: Channel::Blue, high: false },
                Action::Delay { ms: interval },
            ],
        };
        assert(plan@ =~= blink(error.kind()));
        plan
    }
}

/// Whether `progress` is what a step of a cycle reports that was taken on
/// `reply` at `stage`, with a line buffer that held `held`: the action of
/// the stage that follows while the cycle goes on, and at its end success
/// or the error that ended it.
pub open spec fn cycle_reports(stage: Stage, reply: Reply, held: Seq<u8>, progress: Progress) -> bool {
    let next = stage.after(reply, held);
    if next.in_cycle() {
        progress == Progress::Next(next.pending())
    } else if next is Waiting {
        progress == Progress::Finished(Ok(()))
    } else {
        match reply {
            Reply::SensorFailed(e) => progress == Progress::Finished(Err(Error::Dht(e))),
            Reply::DisplayFailed(e) => progress == Progress::Finished(Err(Error::Display(e))),
            _ => progress matches Progress::Finished(Err(Error::Fmt(_))),
        }
    }
}

/// Writes the line of one value of a reading, `label` and the number of
/// `value` tenths, and says where to draw it.
fn write_reading_line(buf: &mut FmtBuf, label: &str, value: i32, line: u8) -> (drawn: Result<
    Action,
    Error,
>)
    ensures
        final(buf)@ == line_text(old(buf)@, label.spec_bytes(), tenths(value as int)),
        valid_utf8(final(buf)@) ==> drawn == Ok::<Action, Error>(
            Action::DrawLine { x: 0, y: (16 * line) as i32 },
        ),
        !valid_utf8(final(buf)@) ==> drawn matches Err(Error::Fmt(_)),
{
    let mut number = FmtBuf::new();
    write_tenths(&mut number, value);
    proof {
        lemma_tenths_is_short_ascii(value as int);
        lemma_ascii_is_text(tenths(value as int));
    }
    write_formatted_line(buf, label, number.as_str(), line)
}

/// Written to an empty line buffer, the line of a value is there whole, the
/// label, a colon, a space and the number, and it is text, as long as the
/// label is text of at most 50 bytes.
pub proof fn lemma_line_of_a_value_is_text(label: Seq<u8>, value: int)
    requires
        valid_utf8(label),
        label.len() <= 50,
        i32::MIN <= value <= i32::MAX,
    ensures
        line_text(Seq::empty(), label, tenths(value)) == label + seq![58u8, 32u8] + tenths(value),
        valid_utf8(line_text(Seq::empty(), label, tenths(value))),
{
    let number = tenths(value);
    let separator = seq![58u8, 32u8];
    lemma_tenths_is_short_ascii(value);
    lemma_ascii_is_text(number);
    lemma_ascii_is_text(separator);
    valid_utf8_concat(label, separator);
    valid_utf8_concat(label + separator, number);
    assert(Seq::<u8>::empty() + (label + separator + number) =~= label + separator + number);
}

/// A cycle that starts with an empty line buffer never fails for its
/// format: whatever the sensor reads, the temperature is drawn, and after it
/// the humidity.
pub proof fn lemma_a_reading_is_always_drawn(reading: Measurement, held: Seq<u8>)
    ensures
        Stage::Reading.after(Reply::Reading(reading), Seq::empty()) == Stage::DrawingTemp(reading),
        Stage::DrawingTemp(reading).after(Reply::Done, held) == Stage::DrawingHumid,
{
    encode_utf8_valid_utf8("Temp"@);
    encode_utf8_valid_utf8("Humid"@);
    reveal_strlit("Temp");
    reveal_strlit("Humid");
    is_ascii_chars_encode_utf8("Temp"@);
    is_ascii_chars_encode_utf8("Humid"@);
    lemma_line_of_a_value_is_text("Temp".spec_bytes(), reading.temperature as int);
    lemma_line_of_a_value_is_text("Humid".spec_bytes(), reading.relative_humidity as int);
}

/// The loop has no end: every stage has a reply that answers it, and a
/// reply that answers always leads on to another stage.
pub proof fn lemma_the_loop_goes_on(stage: Stage, reply: Reply, held: Seq<u8>, reading: Measurement)
    ensures
        stage.accepts(Reply::Done) || stage.accepts(Reply::Reading(reading)),
        stage.accepts(reply) ==> stage.after(reply, held) != stage,
{
}

/// Which state of the loop follows which. A reading is rendered only after
/// it was taken, and a fault is signalled only after the step that failed.
/// Sampling leads to rendering on a reading and to signalling on a failure.
/// Rendering leads back to sampling, or to signalling where the display
/// fails. Signalling leads back to sampling, never to rendering.
pub proof fn lemma_states_follow_in_order(stage: Stage, reply: Reply, held: Seq<u8>)
    requires
        stage.accepts(reply),
    ensures
        stage.phase() == Phase::Sampling && stage.after(reply, held).phase() == Phase::Rendering
            ==> stage is Reading && reply is Reading,
        stage.phase() == Phase::Sampling && stage.after(reply, held).phase() == Phase::Signaling
            ==> stage is Reading,
        stage.phase() == Phase::Rendering && stage.after(reply, held).phase() == Phase::Sampling
            ==> stage is Waiting,
        stage.phase() == Phase::Rendering && stage.after(reply, held).phase() == Phase::Signaling
            ==> reply is DisplayFailed || stage is DrawingTemp,
        stage.phase() == Phase::Signaling ==> stage.after(reply, held).phase() != Phase::Rendering,
{
}

/// Signalling a fault is one blink and no more: four replies after the
/// channel was asked on, the next cycle begins, and the four actions asked
/// for were those of [`blink`], in order.
pub proof fn lemma_one_blink_per_fault(kind: FaultKind, held: Seq<u8>)
    ensures
        ({
            let on = Stage::LedOn(kind);
            let on_delay = on.after(Reply::Done, held);
            let off = on_delay.after(Reply::Done, held);
            let off_delay = off.after(Reply::Done, held);
            &&& seq![on.pending(), on_delay.pending(), off.pending(), off_delay.pending()]
                == blink(kind)
            &&& off_delay.after(Reply::Done, held) == Stage::Clearing
        }),
{
    let on = Stage::LedOn(kind);
    let on_delay = on.after(Reply::Done, held);
    let off = on_delay.after(Reply::Done, held);
    let off_delay = off.after(Reply::Done, held);
    assert(seq![on.pending(), on_delay.pending(), off.pending(), off_delay.pending()] =~= blink(
        kind,
    ));
}

} // verus!
