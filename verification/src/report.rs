//! What the controller tells the operator: one line for each fan speed it
//! has read, one line on the kernel driver, and one line for each failure
//! that it passes over.

use crate::control::Report;
use crate::error::SetupError;
use crate::session::Notice;
use vstd::prelude::*;

verus! {

/// The character for a decimal digit.
pub open spec fn digit_spec(d: int) -> char {
    seq!['0', '1', '2', '3', '4', '5', '6', '7', '8', '9'][d]
}

/// A number in decimal notation, without leading zeros.
pub open spec fn decimal(n: nat) -> Seq<char>
    decreases n,
{
    if n < 10 {
        seq![digit_spec(n as int)]
    } else {
        decimal(n / 10).push(digit_spec((n % 10) as int))
    }
}

/// The line that reports the speed of a fan.
pub open spec fn fan_speed_line_spec(fan: u8, rpm: u16, duty: u8) -> Seq<char> {
    "Fan"@ + decimal(fan as nat) + ": "@ + decimal(rpm as nat) + "rpm/"@ + decimal(duty as nat)
        + "%"@
}

/// The line that says whether a kernel driver was detached.
pub open spec fn kernel_driver_line_spec(detached: bool) -> Seq<char> {
    if detached {
        "has kernel driver? true"@
    } else {
        "has kernel driver? false"@
    }
}

/// The line for a report of the control loop, if it calls for one.
/// `detail` says what went wrong where the report is of a failure.
pub open spec fn report_line_spec(report: Report, detail: Seq<char>) -> Option<Seq<char>> {
    match report {
        Report::Nothing => None,
        Report::WriteFailed { fan } => Some("set_fan_speed Error: "@ + detail),
        Report::Speed { fan, rpm, duty } => Some(fan_speed_line_spec(fan, rpm, duty)),
    }
}

/// The line for a notice of a session, if it calls for one. `detail` says
/// what went wrong where the notice is of a failure.
pub open spec fn notice_line_spec(notice: Notice, detail: Seq<char>) -> Option<Seq<char>> {
    match notice {
        Notice::Nothing => None,
        Notice::KernelDriver { detached } => Some(kernel_driver_line_spec(detached)),
        Notice::ActivationFailed => Some("set_active_configuration Err: "@ + detail),
        Notice::ClaimFailed => Some("claim_interface Err: "@ + detail),
    }
}

/// The one-character string for a decimal digit.
fn digit(d: u16) -> (s: &'static str)
    requires
        d < 10,
    ensures
        s@ == seq![digit_spec(d as int)],
{
    proof {
        reveal_strlit("0");
        reveal_strlit("1");
        reveal_strlit("2");
        reveal_strlit("3");
        reveal_strlit("4");
        reveal_strlit("5");
        reveal_strlit("6");
        reveal_strlit("7");
        reveal_strlit("8");
        reveal_strlit("9");
    }
    let s = match d {
        0 => "0",
        1 => "1",
        2 => "2",
        3 => "3",
        4 => "4",
        5 => "5",
        6 => "6",
        7 => "7",
        8 => "8",
        _ => "9",
    };
    assert(s@ =~= seq![digit_spec(d as int)]);
    s
}

/// Appends `n` in decimal notation to `out`.
fn push_decimal(out: &mut String, n: u16)
    ensures
        final(out)@ == old(out)@ + decimal(n as nat),
    decreases n,
{
    if n >= 10 {
        push_decimal(out, n / 10);
    }
    out.append(digit(n % 10));
    proof {
        if n >= 10 {
            assert(old(out)@ + decimal((n / 10) as nat) + seq![digit_spec((n % 10) as int)]
                =~= old(out)@ + decimal(n as nat));
        }
    }
}

/// Writes the line that reports the speed of a fan: `Fan`, the port, a
/// colon and a space, the reading, `rpm/`, the duty cycle and `%`.
pub fn fan_speed_line(fan: u8, rpm: u16, duty: u8) -> (line: String)
    ensures
        line@ == fan_speed_line_spec(fan, rpm, duty),
{
    let mut line = String::from_str("Fan");
    push_decimal(&mut line, fan as u16);
    line.append(": ");
    push_decimal(&mut line, rpm);
    line.append("rpm/");
    push_decimal(&mut line, duty as u16);
    line.append("%");
    line
}

/// Writes the line that says whether a kernel driver was detached.
pub fn kernel_driver_line(detached: bool) -> (line: String)
    ensures
        line@ == kernel_driver_line_spec(detached),
{
    if detached {
        String::from_str("has kernel driver? true")
    } else {
        String::from_str("has kernel driver? false")
    }
}

/// Writes `label` followed by `detail`.
fn labelled(label: &str, detail: &str) -> (line: String)
    ensures
        line@ == label@ + detail@,
{
    let mut line = String::from_str(label);
    line.append(detail);
    line
}

/// Writes the line for a report of the control loop, if it calls for one.
pub fn report_line(report: Report, detail: &str) -> (line: Option<String>)
    ensures
        line.deep_view() == report_line_spec(report, detail@),
{
    match report {
        Report::Nothing => None,
        Report::WriteFailed { fan: _ } => Some(labelled("set_fan_speed Error: ", detail)),
        Report::Speed { fan, rpm, duty } => Some(fan_speed_line(fan, rpm, duty)),
    }
}

/// Writes the line for a notice of a session, if it calls for one.
pub fn notice_line(notice: Notice, detail: &str) -> (line: Option<String>)
    ensures
        line.deep_view() == notice_line_spec(notice, detail@),
{
    match notice {
        Notice::Nothing => None,
        Notice::KernelDriver { detached } => Some(kernel_driver_line(detached)),
        Notice::ActivationFailed => Some(labelled("set_active_configuration Err: ", detail)),
        Notice::ClaimFailed => Some(labelled("claim_interface Err: ", detail)),
    }
}

/// What to tell the operator when the controller gives up.
pub open spec fn message_spec(error: SetupError) -> Seq<char> {
    match error {
        SetupError::DeviceNotFound => "Did not find USB device"@,
        SetupError::NoAccessibleDevice => "Could not open USB device"@,
        SetupError::NoEndpoints => "No Configurable endpoint found on device"@,
        SetupError::NoOutboundEndpoint => "No outbound endpoint found on device"@,
        SetupError::DriverDetachFailed => "Could not detach kernel driver"@,
        SetupError::InterfaceConfiguration => "Could not select alternate setting"@,
        SetupError::ReleaseFailed => "Could not release interface"@,
        SetupError::ReattachFailed => "Could not attach kernel driver"@,
    }
}

/// Writes what to tell the operator when the controller gives up.
pub fn message(error: SetupError) -> (text: String)
    ensures
        text@ == message_spec(error),
{
    match error {
        SetupError::DeviceNotFound => String::from_str("Did not find USB device"),
        SetupError::NoAccessibleDevice => String::from_str("Could not open USB device"),
        SetupError::NoEndpoints => String::from_str("No Configurable endpoint found on device"),
        SetupError::NoOutboundEndpoint => String::from_str("No outbound endpoint found on device"),
        SetupError::DriverDetachFailed => String::from_str("Could not detach kernel driver"),
        SetupError::InterfaceConfiguration => String::from_str(
            "Could not select alternate setting",
        ),
        SetupError::ReleaseFailed => String::from_str("Could not release interface"),
        SetupError::ReattachFailed => String::from_str("Could not attach kernel driver"),
    }
}

} // verus!
