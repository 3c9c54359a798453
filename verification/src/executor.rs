//! The execution discipline: one closed catalog of commands, one dispatch
//! from command to request frame, one interpretation of what the transport
//! observed, and the bounded retry driver's decision step.
//!
//! The transport itself — writing and reading the device — lives outside this
//! crate; it hands back what it observed and this module says what that
//! observation means: a decoded value, a transient failure worth retrying, or
//! a definite decode failure that identical bytes would reproduce.

use vstd::prelude::*;

use crate::error::DecodeError;
use crate::frame::request_frame;
use crate::requests::confirm::RogConfirm;
use crate::requests::get_dpi_data::GetDpiData;
use crate::requests::get_dpi_data::DpiDataResponse;
use crate::requests::get_dpi_data::decode_dpi;
use crate::requests::get_leds::GetLeds;
use crate::requests::get_leds::GetLedsResponse;
use crate::requests::get_leds::decode_leds;
use crate::requests::get_power_data::GetPowerData;
use crate::requests::get_power_data::PowerResponse;
use crate::requests::get_power_data::decode_power;
use crate::requests::get_profile_and_firmware_v::GetProfileAndFirmwareV;
use crate::requests::set_active_profile::SetActiveProfile;
use crate::requests::set_active_profile::profile_frame;
use crate::requests::set_light_mode::LedData;
use crate::requests::set_light_mode::SetLightModeRequest;
use crate::requests::set_light_mode::light_frame;

verus! {

/// One operation of the catalog, owning the parameters of its request frame.
#[derive(Debug, Clone, Copy, PartialEq, Eq, Structural)]
pub enum Command {
    GetProfileAndFirmware,
    GetPowerData,
    GetDpiData,
    GetLeds,
    Confirm,
    SetActiveProfile(u8),
    SetLightMode(LedData),
}

/// Parameters a command carries must be in range before a frame is built;
/// only the profile index can be out of range.
pub open spec fn command_valid(c: Command) -> bool {
    match c {
        Command::SetActiveProfile(p) => p <= 2,
        _ => true,
    }
}

/// The request frame of each command.
pub open spec fn command_frame(c: Command) -> Seq<u8> {
    match c {
        Command::GetProfileAndFirmware => request_frame(0x12, 0x00),
        Command::GetPowerData => request_frame(0x12, 0x07),
        Command::GetDpiData => request_frame(0x12, 0x04),
        Command::GetLeds => request_frame(0x12, 0x03),
        Command::Confirm => request_frame(0x50, 0x03),
        Command::SetActiveProfile(p) => profile_frame(p),
        Command::SetLightMode(d) => light_frame(d),
    }
}

/// True for the commands that expect a reply frame; the two write-only
/// commands are acknowledged by the write itself.
pub open spec fn command_expects_reply(c: Command) -> bool {
    !(c is GetProfileAndFirmware || c is Confirm)
}

/// What the transport observed in one round trip.
#[derive(Debug, Clone, Copy, PartialEq, Eq)]
pub enum Exchange {
    /// The write or the read failed at the host-driver level.
    Failed,
    /// The write went through and no read was performed (write-only command).
    Written,
    /// A full round trip: these are the reply bytes.
    Replied([u8; 64]),
}

/// What one attempt at a command came to.
#[derive(Debug, Clone, PartialEq, Eq)]
pub enum Outcome {
    /// Decoded power state.
    Power(PowerResponse),
    /// Decoded DPI settings.
    Dpi(DpiDataResponse),
    /// Decoded LED states.
    Leds(GetLedsResponse),
    /// A write command's echo check: true when the device applied it.
    Applied(bool),
    /// A write-only command's write went through.
    Acknowledged,
    /// Transport failure, or an echo mismatch on a read command: retrying
    /// may succeed.
    Transient,
    /// A payload byte outside the protocol tables: identical bytes would
    /// reproduce it, so it is surfaced, never retried.
    Malformed(DecodeError),
}

impl Command {
    /// Encodes this command into its request frame.
    pub fn encode(&self) -> (buf: [u8; 64])
        requires
            command_valid(*self),
        ensures
            buf@ == command_frame(*self),
    {
        match self {
            Command::GetProfileAndFirmware => GetProfileAndFirmwareV.as_byte_vec(),
            Command::GetPowerData => GetPowerData.as_byte_vec(),
            Command::GetDpiData => GetDpiData.as_byte_vec(),
            Command::GetLeds => GetLeds.as_byte_vec(),
            Command::Confirm => RogConfirm.as_byte_vec(),
            Command::SetActiveProfile(p) => (SetActiveProfile { profile: *p }).as_byte_vec(),
            Command::SetLightMode(d) => SetLightModeRequest(*d).as_byte_vec(),
        }
    }

    /// True when the executor must read a reply frame after the write.
    pub fn expects_reply(&self) -> (r: bool)
        ensures
            r == command_expects_reply(*self),
    {
        match self {
            Command::GetProfileAndFirmware => false,
            Command::Confirm => false,
            _ => true,
        }
    }
}

/// Interprets what the transport observed for one command. A failed exchange
/// is always transient. A reply whose first two bytes differ from the
/// request's is transient for the read commands and a definite `false` for
/// the write commands — never a decoded value. Payload bytes outside the
/// protocol tables are definite decode failures.
pub fn interpret(c: &Command, exchange: &Exchange) -> (r: Outcome)
    ensures
        *exchange is Failed ==> r == Outcome::Transient,
        *exchange is Written ==> r == (if command_expects_reply(*c) {
            Outcome::Transient
        } else {
            Outcome::Acknowledged
        }),
        *exchange matches Exchange::Replied(reply) ==> match *c {
            Command::GetProfileAndFirmware => r == Outcome::Acknowledged,
            Command::Confirm => r == Outcome::Acknowledged,
            Command::GetPowerData => match decode_power(reply@) {
                Ok(p) => r == Outcome::Power(p),
                Err(DecodeError::EchoMismatch) => r == Outcome::Transient,
                Err(e) => r == Outcome::Malformed(e),
            },
            Command::GetDpiData => match decode_dpi(reply@) {
                Some(d) => r == Outcome::Dpi(d),
                None => r == Outcome::Transient,
            },
            Command::GetLeds => match decode_leds(reply@) {
                Ok(s) => r matches Outcome::Leds(resp) && resp.0@ == s,
                Err(DecodeError::EchoMismatch) => r == Outcome::Transient,
                Err(e) => r == Outcome::Malformed(e),
            },
            Command::SetActiveProfile(_) => r == Outcome::Applied(
                reply@[0] == 0x50 && reply@[1] == 0x02,
            ),
            Command::SetLightMode(_) => r == Outcome::Applied(
                reply@[0] == 0x51 && reply@[1] == 0x28,
            ),
        },
{
    match exchange {
        Exchange::Failed => Outcome::Transient,
        Exchange::Written => {
            if c.expects_reply() {
                Outcome::Transient
            } else {
                Outcome::Acknowledged
            }
        },
        Exchange::Replied(reply) => match c {
            Command::GetProfileAndFirmware => Outcome::Acknowledged,
            Command::Confirm => Outcome::Acknowledged,
            Command::GetPowerData => match GetPowerData::decode(reply) {
                Ok(p) => Outcome::Power(p),
                Err(DecodeError::EchoMismatch) => Outcome::Transient,
                Err(e) => Outcome::Malformed(e),
            },
            Command::GetDpiData => match GetDpiData::decode(reply) {
                Some(d) => Outcome::Dpi(d),
                None => Outcome::Transient,
            },
            Command::GetLeds => match GetLeds::decode(reply) {
                Ok(resp) => Outcome::Leds(resp),
                Err(DecodeError::EchoMismatch) => Outcome::Transient,
                Err(e) => Outcome::Malformed(e),
            },
            Command::SetActiveProfile(_) => Outcome::Applied(SetActiveProfile::decode(reply)),
            Command::SetLightMode(_) => Outcome::Applied(SetLightModeRequest::decode(reply)),
        },
    }
}

/// True for the outcomes the retry driver reissues: transient failures, and
/// a write command whose echo check came back false.
pub open spec fn retryable(o: Outcome) -> bool {
    ||| o is Transient
    ||| (o matches Outcome::Applied(applied) && !applied)
}

/// The retry driver's decision after one attempt.
#[derive(Debug, Clone, PartialEq, Eq)]
pub enum RetryDecision {
    /// Final: hand this outcome to the caller.
    Done(Outcome),
    /// Wait the fixed interval and reissue the identical command.
    Again,
    /// The attempt budget is exhausted: give up with a definite timeout.
    TimedOut,
}

/// The retry driver's state: how many attempts are still allowed.
#[derive(Debug, Clone, Copy, PartialEq, Eq, Structural)]
pub struct RetryBudget {
    pub attempts_left: u32,
}

impl RetryBudget {
    /// A fresh budget of `attempts` attempts.
    pub fn new(attempts: u32) -> (r: RetryBudget)
        ensures
            r.attempts_left == attempts,
    {
        RetryBudget { attempts_left: attempts }
    }

    /// Decides what to do after one attempt. Outcomes that are not
    /// retryable are delivered at once; a retryable one consumes an attempt,
    /// and an exhausted budget turns into a definite timeout instead of
    /// polling forever. The attempt count never grows, and strictly shrinks
    /// on every `Again`, so a driver loop terminates.
    pub fn step(&mut self, outcome: Outcome) -> (d: RetryDecision)
        ensures
            !retryable(outcome) ==> d == RetryDecision::Done(outcome) && *final(self)
                == *old(self),
            retryable(outcome) && old(self).attempts_left > 1 ==> d == RetryDecision::Again
                && final(self).attempts_left == old(self).attempts_left - 1,
            retryable(outcome) && old(self).attempts_left <= 1 ==> d == RetryDecision::TimedOut
                && final(self).attempts_left == 0,
    {
        let is_retry = match &outcome {
            Outcome::Transient => true,
            Outcome::Applied(applied) => !*applied,
            _ => false,
        };
        if !is_retry {
            RetryDecision::Done(outcome)
        } else if self.attempts_left > 1 {
            self.attempts_left = self.attempts_left - 1;
            RetryDecision::Again
        } else {
            self.attempts_left = 0;
            RetryDecision::TimedOut
        }
    }
}

} // verus!
