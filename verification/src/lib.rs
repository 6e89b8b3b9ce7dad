//! Verified core of a temperature and humidity station: a sensor on a
//! single-wire bus, a two-line readout on a small display, and a tri-colour
//! indicator that blinks when a cycle fails.

pub mod board;
pub mod display;
pub mod errors;
pub mod io_pin;
pub mod reading;
pub mod rgb_led;

use crate::board::{lit, Action, Progress, Reply, Stage, WlanTempSensorBoard};
use crate::display::{appended, lemma_appended_twice, FmtBuf};
use crate::errors::{fmt_error, Error};
use vstd::prelude::*;
use vstd::string::StringSliceAdditionalSpecFns;
use vstd::utf8::{is_ascii_chars_encode_utf8, valid_utf8};

verus! {

/// Milliseconds between two readings, and before the first: the sensor
/// needs that long to settle.
pub const DHT_DELAY_MS: u32 = 2000;

/// What a line buffer that held `held` holds after `label`, a colon, a
/// space and `value` are written to it.
pub open spec fn line_text(held: Seq<u8>, label: Seq<u8>, value: Seq<u8>) -> Seq<u8> {
    appended(held, label + seq![58u8, 32u8] + value)
}

/// Writes `text`, a colon, a space and `value` to the line buffer, and says
/// where line number `line` is to be drawn: at the left edge, sixteen pixels
/// further down for each line. Fails with [`Error::Fmt`] if what the buffer
/// then holds is not text.
pub fn write_formatted_line(buf: &mut FmtBuf, text: &str, value: &str, line: u8) -> (drawn: Result<
    Action,
    Error,
>)
    ensures
        final(buf)@ == line_text(old(buf)@, text.spec_bytes(), value.spec_bytes()),
        valid_utf8(final(buf)@) ==> drawn == Ok::<Action, Error>(
            Action::DrawLine { x: 0, y: (16 * line) as i32 },
        ),
        !valid_utf8(final(buf)@) ==> drawn matches Err(Error::Fmt(_)),
{
    buf.write_str(text);
    buf.write_str(": ");
    buf.write_str(value);
    proof {
        reveal_strlit(": ");
        is_ascii_chars_encode_utf8(": "@);
        assert(": ".spec_bytes() =~= seq![58u8, 32u8]);
        lemma_appended_twice(old(buf)@, text.spec_bytes(), ": ".spec_bytes());
        lemma_appended_twice(
            old(buf)@,
            text.spec_bytes() + ": ".spec_bytes(),
            value.spec_bytes(),
        );
    }
    if buf.text().is_some() {
        Ok(Action::DrawLine { x: 0, y: (line as i32) * 16 })
    } else {
        Err(Error::Fmt(fmt_error()))
    }
}

/// Takes one turn of the endless loop: `reply` answers the action asked for
/// last, and the action returned is the one to carry out next. The action
/// to begin with is that of a new board: the delay that lets the sensor
/// settle.
///
/// A cycle reads the sensor and puts the reading on the display. After a
/// cycle that went well the board waits [`DHT_DELAY_MS`] and starts the
/// next. After one that failed it blinks the fault's channel once, on and
/// off, and starts the next without further delay.
///
/// Returns `None`, and changes nothing, if `reply` does not answer the
/// action asked for.
pub fn run(buf: &mut FmtBuf, board: &mut WlanTempSensorBoard, reply: Reply) -> (action: Option<
    Action,
>)
    ensures
        final(board).dht_data_pin == old(board).dht_data_pin,
        action is Some <==> old(board).stage.accepts(reply),
        action is None ==> *final(board) == *old(board) && final(buf)@ == old(buf)@,
        action is Some ==> final(board).stage == old(board).stage.after(reply, old(buf)@),
        action is Some ==> final(buf)@ == old(board).stage.held_after(reply, old(buf)@),
        action is Some ==> action == Some(final(board).stage.pending()),
        action is Some ==> final(board).rgb_led == lit(old(board).rgb_led, action->Some_0),
{
    match board.stage {
        Stage::Clearing
        | Stage::Reading
        | Stage::DrawingTemp(_)
        | Stage::DrawingHumid
        | Stage::Flushing => {
            match board.display_measurement(buf, reply) {
                Some(Progress::Next(action)) => Some(action),
                Some(Progress::Finished(Ok(()))) => {
                    board.stage = Stage::Waiting;
                    Some(Action::Delay { ms: DHT_DELAY_MS })
                },
                Some(Progress::Finished(Err(error))) => {
                    let kind = error.kind();
                    let plan = board.blink_error_led(&error);
                    board.stage = Stage::LedOn(kind);
                    board.rgb_led.set(kind.channel(), true);
                    Some(plan[0])
                },
                None => None,
            }
        },
        Stage::Settling | Stage::Waiting | Stage::OffDelay(_) => {
            match reply {
                Reply::Done => {
                    board.stage = Stage::Clearing;
                    Some(Action::ClearDisplay)
                },
                _ => None,
            }
        },
        Stage::LedOn(kind) => {
            match reply {
                Reply::Done => {
                    board.stage = Stage::OnDelay(kind);
                    Some(Action::Delay { ms: kind.interval() })
                },
                _ => None,
            }
        },
        Stage::OnDelay(kind) => {
            match reply {
                Reply::Done => {
                    board.stage = Stage::LedOff(kind);
                    board.rgb_led.set(kind.channel(), false);
                    Some(Action::SetLed { channel: kind.channel(), high: false })
                },
                _ => None,
            }
        },
        Stage::LedOff(kind) => {
            match reply {
                Reply::Done => {
                    board.stage = Stage::OffDelay(kind);
                    Some(Action::Delay { ms: kind.interval() })
                },
                _ => None,
            }
        },
    }
}

} // verus!
