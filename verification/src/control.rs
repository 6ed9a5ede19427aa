//! The sampling and control loop: temperature in, duty cycle and fan
//! commands out.
//!
//! The loop is a state machine. [`ControlLoop::command`] names the one
//! operation to perform next; the caller performs it and hands the result
//! to [`ControlLoop::advance`]. One iteration samples the temperature and
//! then, for each fan in turn, sets its speed, asks for its speed and reads
//! the answer.

use crate::protocol::{
    decode_rpm, query_frame, query_frame_spec, rpm_spec, set_speed_frame, set_speed_frame_spec,
};
use vstd::prelude::*;

verus! {

/// Temperature, in degrees Celsius, at which the fans reach full speed.
pub const FULL_SPEED_TEMPERATURE: u8 = 90;

/// Largest duty cycle, in percent.
pub const MAX_DUTY: u8 = 100;

/// Ports of the fans that the loop drives, in the order it drives them.
pub const FAN_PORTS: [u8; 2] = [2, 3];

/// Number of fans that the loop drives.
pub const FAN_COUNT: usize = 2;

/// The duty cycle for a temperature: `100 * temperature / 90` rounded to
/// the nearest integer, and 100 above 90 degrees.
pub open spec fn duty_cycle_spec(temperature: int) -> int {
    if temperature > 90 {
        100
    } else {
        (100 * temperature + 45) / 90
    }
}

/// The tachometer reading that a read outcome stands for: the decoded
/// value of a response, and 0, the "no reading" value, where the read
/// failed.
pub open spec fn fan_speed_reading_spec(response: Option<[u8; 64]>) -> int {
    match response {
        Some(frame) => rpm_spec(frame@),
        None => 0,
    }
}

/// Maps a temperature reading to the duty cycle to command.
pub fn duty_cycle(temperature: u8) -> (duty: u8)
    ensures
        duty == duty_cycle_spec(temperature as int),
        duty <= MAX_DUTY,
{
    if temperature > FULL_SPEED_TEMPERATURE {
        MAX_DUTY
    } else {
        let scaled: u16 = 100 * (temperature as u16) + 45;
        (scaled / 90) as u8
    }
}

/// Turns the outcome of reading a speed response into a tachometer value.
pub fn fan_speed_reading(response: &Option<[u8; 64]>) -> (rpm: u16)
    ensures
        rpm == fan_speed_reading_spec(*response),
{
    match response {
        Some(frame) => decode_rpm(frame),
        None => 0,
    }
}

/// Up to 90 degrees the duty cycle is the integer nearest to
/// `100 * t / 90`: it differs from that quotient by at most one half.
/// Above 90 degrees it is 100. It is 0 at 0 degrees and never exceeds 100.
pub proof fn lemma_duty_cycle_rounds_and_clamps(t: int)
    requires
        0 <= t,
    ensures
        t <= 90 ==> -45 <= 90 * duty_cycle_spec(t) - 100 * t <= 45,
        t > 90 ==> duty_cycle_spec(t) == 100,
        0 <= duty_cycle_spec(t) <= 100,
        duty_cycle_spec(0) == 0,
{
}

/// Where the loop stands within an iteration.
#[derive(Clone, Copy, Debug, PartialEq, Eq, Structural)]
pub enum Stage {
    /// The temperature is to be sampled.
    Sample,
    /// The speed of the fan at this index of [`FAN_PORTS`] is to be set.
    SetSpeed { fan: usize },
    /// The fan at this index is to be asked for its speed.
    Query { fan: usize },
    /// The answer of the fan at this index is to be read.
    Read { fan: usize },
}

/// The operation that the loop asks for.
#[derive(Clone, Copy, Debug, PartialEq, Eq)]
pub enum Command {
    /// Read the processor temperature.
    SampleTemperature,
    /// Write a set-speed frame to the outbound endpoint.
    SetSpeed { endpoint: u8, frame: [u8; 192] },
    /// Write a speed query frame to the outbound endpoint.
    Query { endpoint: u8, query: [u8; 64] },
    /// Read a 64-byte response from the inbound endpoint.
    ReadResponse { endpoint: u8 },
}

/// A command with its frame as a sequence of bytes.
pub enum CommandView {
    SampleTemperature,
    SetSpeed { endpoint: u8, frame: Seq<u8> },
    Query { endpoint: u8, query: Seq<u8> },
    ReadResponse { endpoint: u8 },
}

impl View for Command {
    type V = CommandView;

    open spec fn view(&self) -> CommandView {
        match *self {
            Command::SampleTemperature => CommandView::SampleTemperature,
            Command::SetSpeed { endpoint, frame } => CommandView::SetSpeed {
                endpoint,
                frame: frame@,
            },
            Command::Query { endpoint, query } => CommandView::Query { endpoint, query: query@ },
            Command::ReadResponse { endpoint } => CommandView::ReadResponse { endpoint },
        }
    }
}

/// What came of the operation that the loop asked for.
#[derive(Clone, Copy, Debug, PartialEq, Eq)]
pub enum Outcome {
    /// The temperature in whole degrees, or `None` where it could not be
    /// read.
    Temperature(Option<u8>),
    /// Whether a frame was written.
    Written(bool),
    /// The response buffer, or `None` where the read failed.
    Response(Option<[u8; 64]>),
}

/// What the caller is to tell the operator after an outcome.
#[derive(Clone, Copy, Debug, PartialEq, Eq, Structural)]
pub enum Report {
    /// Nothing.
    Nothing,
    /// The set-speed frame for this fan port could not be written.
    WriteFailed { fan: u8 },
    /// This fan port turns at `rpm` while `duty` percent is commanded.
    Speed { fan: u8, rpm: u16, duty: u8 },
}

/// The state of the loop: the endpoints it talks to, the last temperature
/// it has seen, and its place in the iteration.
#[derive(Clone, Copy, Debug, PartialEq, Eq, Structural)]
pub struct LoopState {
    pub endpoint_out: u8,
    pub endpoint_in: u8,
    pub temperature: u8,
    pub stage: Stage,
}

impl LoopState {
    /// The fan index of the stage, if it has one, is that of a fan.
    pub open spec fn wf(self) -> bool {
        match self.stage {
            Stage::Sample => true,
            Stage::SetSpeed { fan } => fan < FAN_COUNT,
            Stage::Query { fan } => fan < FAN_COUNT,
            Stage::Read { fan } => fan < FAN_COUNT,
        }
    }

    /// The state before the first iteration: no temperature seen yet.
    pub open spec fn initial(endpoint_out: u8, endpoint_in: u8) -> LoopState {
        LoopState { endpoint_out, endpoint_in, temperature: 0, stage: Stage::Sample }
    }

    /// The duty cycle that follows from the last temperature seen.
    pub open spec fn duty(self) -> int {
        duty_cycle_spec(self.temperature as int)
    }

    /// The operation to perform in this state.
    pub open spec fn command(self) -> CommandView {
        match self.stage {
            Stage::Sample => CommandView::SampleTemperature,
            Stage::SetSpeed { fan } => CommandView::SetSpeed {
                endpoint: self.endpoint_out,
                frame: set_speed_frame_spec(FAN_PORTS[fan as int], self.duty() as u8),
            },
            Stage::Query { fan } => CommandView::Query {
                endpoint: self.endpoint_out,
                query: query_frame_spec(FAN_PORTS[fan as int]),
            },
            Stage::Read { fan } => CommandView::ReadResponse { endpoint: self.endpoint_in },
        }
    }

    /// The stage that follows the work on the fan at index `fan`: the next
    /// fan, or the next iteration after the last one.
    pub open spec fn after_fan(fan: usize) -> Stage {
        if fan + 1 < FAN_COUNT {
            Stage::SetSpeed { fan: (fan + 1) as usize }
        } else {
            Stage::Sample
        }
    }

    /// The state after `outcome`. A failed sample keeps the temperature; a
    /// failed write or read does not hold the loop up; an outcome of a kind
    /// that the stage does not wait for changes nothing.
    pub open spec fn next(self, outcome: Outcome) -> LoopState {
        match (self.stage, outcome) {
            (Stage::Sample, Outcome::Temperature(Some(t))) => LoopState {
                temperature: t,
                stage: Stage::SetSpeed { fan: 0 },
                ..self
            },
            (Stage::Sample, Outcome::Temperature(None)) => LoopState {
                stage: Stage::SetSpeed { fan: 0 },
                ..self
            },
            (Stage::SetSpeed { fan }, Outcome::Written(_)) => LoopState {
                stage: Stage::Query { fan },
                ..self
            },
            (Stage::Query { fan }, Outcome::Written(_)) => LoopState {
                stage: Stage::Read { fan },
                ..self
            },
            (Stage::Read { fan }, Outcome::Response(_)) => LoopState {
                stage: Self::after_fan(fan),
                ..self
            },
            _ => self,
        }
    }

    /// What to report after `outcome`: a set-speed frame that was not
    /// written, or a tachometer reading other than 0.
    pub open spec fn report(self, outcome: Outcome) -> Report {
        match (self.stage, outcome) {
            (Stage::SetSpeed { fan }, Outcome::Written(false)) => Report::WriteFailed {
                fan: FAN_PORTS[fan as int],
            },
            (Stage::Read { fan }, Outcome::Response(response)) => {
                if fan_speed_reading_spec(response) > 0 {
                    Report::Speed {
                        fan: FAN_PORTS[fan as int],
                        rpm: fan_speed_reading_spec(response) as u16,
                        duty: self.duty() as u8,
                    }
                } else {
                    Report::Nothing
                }
            },
            _ => Report::Nothing,
        }
    }
}

/// The control loop.
#[derive(Clone, Copy, Debug)]
pub struct ControlLoop {
    state: LoopState,
}

impl View for ControlLoop {
    type V = LoopState;

    closed spec fn view(&self) -> LoopState {
        self.state
    }
}

impl ControlLoop {
    #[verifier::type_invariant]
    spec fn inv(self) -> bool {
        self.state.wf()
    }

    /// A loop that writes to `endpoint_out` and reads from `endpoint_in`,
    /// about to take its first sample.
    pub fn new(endpoint_out: u8, endpoint_in: u8) -> (control: ControlLoop)
        ensures
            control@ == LoopState::initial(endpoint_out, endpoint_in),
            control@.wf(),
    {
        ControlLoop {
            state: LoopState { endpoint_out, endpoint_in, temperature: 0, stage: Stage::Sample },
        }
    }

    /// The state of the loop.
    pub fn state(&self) -> (state: LoopState)
        ensures
            state == self@,
            state.wf(),
    {
        proof {
            use_type_invariant(self);
        }
        self.state
    }

    /// The last temperature that was sampled; 0 before the first.
    pub fn temperature(&self) -> (temperature: u8)
        ensures
            temperature == self@.temperature,
    {
        self.state.temperature
    }

    /// The duty cycle that the loop commands.
    pub fn duty(&self) -> (duty: u8)
        ensures
            duty == self@.duty(),
            duty <= MAX_DUTY,
    {
        duty_cycle(self.state.temperature)
    }

    /// Whether the loop stands between two iterations, where it can be
    /// left without a fan half dealt with.
    pub fn at_iteration_start(&self) -> (at_start: bool)
        ensures
            at_start == (self@.stage == Stage::Sample),
    {
        match self.state.stage {
            Stage::Sample => true,
            _ => false,
        }
    }

    /// The operation to perform next.
    pub fn command(&self) -> (command: Command)
        ensures
            command@ == self@.command(),
    {
        proof {
            use_type_invariant(self);
        }
        match self.state.stage {
            Stage::Sample => Command::SampleTemperature,
            Stage::SetSpeed { fan } => Command::SetSpeed {
                endpoint: self.state.endpoint_out,
                frame: set_speed_frame(FAN_PORTS[fan], duty_cycle(self.state.temperature)),
            },
            Stage::Query { fan } => Command::Query {
                endpoint: self.state.endpoint_out,
                query: query_frame(FAN_PORTS[fan]),
            },
            Stage::Read { fan: _ } => Command::ReadResponse { endpoint: self.state.endpoint_in },
        }
    }

    /// Takes the outcome of the operation last asked for, moves on, and
    /// says what to report.
    pub fn advance(&mut self, outcome: Outcome) -> (report: Report)
        ensures
            final(self)@ == old(self)@.next(outcome),
            report == old(self)@.report(outcome),
            final(self)@.wf(),
    {
        proof {
            use_type_invariant(&*self);
        }
        let mut report = Report::Nothing;
        match (self.state.stage, outcome) {
            (Stage::Sample, Outcome::Temperature(sample)) => {
                if let Some(t) = sample {
                    self.state.temperature = t;
                }
                self.state.stage = Stage::SetSpeed { fan: 0 };
            },
            (Stage::SetSpeed { fan }, Outcome::Written(written)) => {
                if !written {
                    report = Report::WriteFailed { fan: FAN_PORTS[fan] };
                }
                self.state.stage = Stage::Query { fan };
            },
            (Stage::Query { fan }, Outcome::Written(_)) => {
                self.state.stage = Stage::Read { fan };
            },
            (Stage::Read { fan }, Outcome::Response(response)) => {
                let rpm = fan_speed_reading(&response);
                if rpm > 0 {
                    report =
                    Report::Speed {
                        fan: FAN_PORTS[fan],
                        rpm,
                        duty: duty_cycle(self.state.temperature),
                    };
                }
                if fan + 1 < FAN_COUNT {
                    self.state.stage = Stage::SetSpeed { fan: fan + 1 };
                } else {
                    self.state.stage = Stage::Sample;
                }
            },
            _ => {},
        }
        report
    }
}

/// A loop that is well formed stays so, whatever comes back.
pub proof fn lemma_loop_stays_well_formed(state: LoopState, outcome: Outcome)
    requires
        state.wf(),
    ensures
        state.next(outcome).wf(),
{
}

/// A sample that fails leaves the temperature, and with it the duty cycle,
/// as the last sample that succeeded left them.
pub proof fn lemma_failed_sample_keeps_duty(state: LoopState)
    ensures
        state.next(Outcome::Temperature(None)).temperature == state.temperature,
        state.next(Outcome::Temperature(None)).duty() == state.duty(),
{
}

/// A write or a read changes neither the temperature nor the endpoints.
pub proof fn lemma_transfers_keep_temperature(state: LoopState, outcome: Outcome)
    requires
        !(outcome is Temperature),
    ensures
        state.next(outcome).temperature == state.temperature,
        state.next(outcome).endpoint_out == state.endpoint_out,
        state.next(outcome).endpoint_in == state.endpoint_in,
{
}

/// The duty cycle in a set-speed frame that the loop sends is at most 100,
/// and the frame goes to one of the fan ports.
pub proof fn lemma_transmitted_duty_in_range(state: LoopState)
    requires
        state.wf(),
        state.stage is SetSpeed,
    ensures
        state.command() matches CommandView::SetSpeed { endpoint, frame } && endpoint
            == state.endpoint_out && frame.len() == 192 && frame[4] <= MAX_DUTY && (frame[2] == 2
            || frame[2] == 3),
{
}

/// A speed is reported only for a reading other than 0: a read that
/// fails, or a response that carries 0, is passed over in silence.
pub proof fn lemma_no_reading_no_report(state: LoopState, outcome: Outcome)
    ensures
        state.report(Outcome::Response(None)) == Report::Nothing,
        state.report(outcome) matches Report::Speed { fan, rpm, duty } ==> rpm > 0,
{
    if let Outcome::Response(Some(frame)) = outcome {
        crate::protocol::lemma_rpm_is_little_endian(frame@);
    }
}

/// One iteration, whatever comes back: the temperature is sampled; then
/// the fan on port 2 and after it the fan on port 3 are each sent the
/// duty cycle that follows from the temperature, asked for their speed,
/// and read; then the next iteration starts. A sample that failed leaves
/// the earlier temperature in force.
pub proof fn lemma_iteration_order(
    state: LoopState,
    sample: Option<u8>,
    written: Seq<bool>,
    responses: Seq<Option<[u8; 64]>>,
)
    requires
        state.stage == Stage::Sample,
        written.len() == 4,
        responses.len() == 2,
    ensures
        ({
            let sampled = state.next(Outcome::Temperature(sample));
            let set_first = sampled.next(Outcome::Written(written[0]));
            let asked_first = set_first.next(Outcome::Written(written[1]));
            let read_first = asked_first.next(Outcome::Response(responses[0]));
            let set_second = read_first.next(Outcome::Written(written[2]));
            let asked_second = set_second.next(Outcome::Written(written[3]));
            let read_second = asked_second.next(Outcome::Response(responses[1]));
            let temperature = match sample {
                Some(t) => t,
                None => state.temperature,
            };
            let duty = duty_cycle_spec(temperature as int) as u8;
            &&& state.command() == CommandView::SampleTemperature
            &&& sampled.command() == CommandView::SetSpeed {
                endpoint: state.endpoint_out,
                frame: set_speed_frame_spec(2, duty),
            }
            &&& set_first.command() == CommandView::Query {
                endpoint: state.endpoint_out,
                query: query_frame_spec(2),
            }
            &&& asked_first.command() == CommandView::ReadResponse { endpoint: state.endpoint_in }
            &&& read_first.command() == CommandView::SetSpeed {
                endpoint: state.endpoint_out,
                frame: set_speed_frame_spec(3, duty),
            }
            &&& set_second.command() == CommandView::Query {
                endpoint: state.endpoint_out,
                query: query_frame_spec(3),
            }
            &&& asked_second.command() == CommandView::ReadResponse { endpoint: state.endpoint_in }
            &&& read_second == LoopState { temperature, ..state }
        }),
{
}

} // verus!
