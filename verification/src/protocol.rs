//! Wire format of the fan hub: fixed-length command frames sent over
//! interrupt transfers, the response that carries a tachometer reading, and
//! the class request that puts the hub into its idle state.

use vstd::prelude::*;

verus! {

/// First byte of a frame that sets a fan's speed.
pub const SET_SPEED_OPCODE: u8 = 0x32;

/// First byte of a frame that asks for a fan's speed.
pub const GET_SPEED_OPCODE: u8 = 0x33;

/// Second byte of every command frame.
pub const COMMAND_MARKER: u8 = 0x51;

/// Mode byte of a set-speed frame: a fixed duty cycle.
pub const FIXED_MODE: u8 = 0x01;

/// Length in bytes of a set-speed frame.
pub const SET_SPEED_FRAME_LEN: usize = 192;

/// Length in bytes of a speed query frame.
pub const QUERY_FRAME_LEN: usize = 64;

/// Length in bytes of the response to a speed query.
pub const RESPONSE_LEN: usize = 64;

/// Offset of the low byte of the tachometer reading in a response.
pub const RPM_LOW_OFFSET: usize = 5;

/// Offset of the high byte of the tachometer reading in a response.
pub const RPM_HIGH_OFFSET: usize = 6;

/// Time allowed for every transfer, in seconds.
pub const TRANSFER_TIMEOUT_SECS: u64 = 1;

/// Request type of the idle request: a class request to an interface,
/// from host to device.
pub const IDLE_REQUEST_TYPE: u8 = 0x21;

/// Request code of the idle request.
pub const IDLE_REQUEST: u8 = 0x0A;

/// The setup packet of a control transfer.
#[derive(Clone, Copy, Debug, PartialEq, Eq, Structural)]
pub struct ControlRequest {
    pub request_type: u8,
    pub request: u8,
    pub value: u16,
    pub index: u16,
    /// Number of bytes in the data stage; 0 where there is none.
    pub length: u16,
}

/// The request that puts the hub into its idle state: value and index 0,
/// no data stage.
pub open spec fn idle_request_spec() -> ControlRequest {
    ControlRequest {
        request_type: IDLE_REQUEST_TYPE,
        request: IDLE_REQUEST,
        value: 0,
        index: 0,
        length: 0,
    }
}

/// The bytes of a set-speed frame: five header bytes, then zero padding up
/// to the frame length.
pub open spec fn set_speed_frame_spec(fan_port: u8, duty: u8) -> Seq<u8> {
    seq![SET_SPEED_OPCODE, COMMAND_MARKER, fan_port, FIXED_MODE, duty] + Seq::new(
        187,
        |i: int| 0u8,
    )
}

/// The bytes of a speed query frame: three header bytes, then zero padding
/// up to the frame length.
pub open spec fn query_frame_spec(fan_port: u8) -> Seq<u8> {
    seq![GET_SPEED_OPCODE, COMMAND_MARKER, fan_port] + Seq::new(61, |i: int| 0u8)
}

/// The tachometer reading carried by a response: a little-endian 16-bit
/// value at offsets 5 and 6.
pub open spec fn rpm_spec(response: Seq<u8>) -> int {
    response[5] as int + 256 * (response[6] as int)
}

/// Builds the idle request, which is sent once before the first command.
pub fn idle_request() -> (request: ControlRequest)
    ensures
        request == idle_request_spec(),
{
    ControlRequest {
        request_type: IDLE_REQUEST_TYPE,
        request: IDLE_REQUEST,
        value: 0,
        index: 0,
        length: 0,
    }
}

/// Builds the frame that commands `fan_port` to run at `duty` percent.
pub fn set_speed_frame(fan_port: u8, duty: u8) -> (frame: [u8; 192])
    ensures
        frame@ == set_speed_frame_spec(fan_port, duty),
{
    let mut frame = [0u8; 192];
    frame[0] = SET_SPEED_OPCODE;
    frame[1] = COMMAND_MARKER;
    frame[2] = fan_port;
    frame[3] = FIXED_MODE;
    frame[4] = duty;
    frame
}

/// Builds the frame that asks for the speed of `fan_port`.
pub fn query_frame(fan_port: u8) -> (frame: [u8; 64])
    ensures
        frame@ == query_frame_spec(fan_port),
{
    let mut frame = [0u8; 64];
    frame[0] = GET_SPEED_OPCODE;
    frame[1] = COMMAND_MARKER;
    frame[2] = fan_port;
    frame
}

/// Reads the tachometer value out of a response frame.
pub fn decode_rpm(response: &[u8; 64]) -> (rpm: u16)
    ensures
        rpm == rpm_spec(response@),
{
    let low: u16 = response[RPM_LOW_OFFSET] as u16;
    let high: u16 = response[RPM_HIGH_OFFSET] as u16;
    high * 256 + low
}

/// A set-speed frame is 192 bytes long. Its first five bytes are the
/// opcode, the marker, the fan port, the mode and the duty cycle, and
/// every other byte is zero.
pub proof fn lemma_set_speed_frame_layout(fan_port: u8, duty: u8)
    ensures
        set_speed_frame_spec(fan_port, duty).len() == SET_SPEED_FRAME_LEN,
        set_speed_frame_spec(fan_port, duty)[0] == SET_SPEED_OPCODE,
        set_speed_frame_spec(fan_port, duty)[1] == COMMAND_MARKER,
        set_speed_frame_spec(fan_port, duty)[2] == fan_port,
        set_speed_frame_spec(fan_port, duty)[3] == FIXED_MODE,
        set_speed_frame_spec(fan_port, duty)[4] == duty,
        forall|i: int| 5 <= i < SET_SPEED_FRAME_LEN ==> set_speed_frame_spec(fan_port, duty)[i] == 0,
{
}

/// A speed query frame is 64 bytes long. Its first three bytes are the
/// opcode, the marker and the fan port, and every other byte is zero.
pub proof fn lemma_query_frame_layout(fan_port: u8)
    ensures
        query_frame_spec(fan_port).len() == QUERY_FRAME_LEN,
        query_frame_spec(fan_port)[0] == GET_SPEED_OPCODE,
        query_frame_spec(fan_port)[1] == COMMAND_MARKER,
        query_frame_spec(fan_port)[2] == fan_port,
        forall|i: int| 3 <= i < QUERY_FRAME_LEN ==> query_frame_spec(fan_port)[i] == 0,
{
}

/// The reading of a response is its byte 5 plus 256 times its byte 6,
/// which is the high byte shifted left by eight bits or-ed with the low
/// byte. It fits 16 bits.
pub proof fn lemma_rpm_is_little_endian(response: Seq<u8>)
    ensures
        rpm_spec(response) == response[5] + 256 * response[6],
        rpm_spec(response) == ((response[6] as u16) << 8) | (response[5] as u16),
        0 <= rpm_spec(response) <= u16::MAX,
{
    let low = response[5];
    let high = response[6];
    assert(((high as u16) << 8) | (low as u16) == low + 256 * high) by (bit_vector);
}

/// Two responses that agree in bytes 5 and 6 carry the same reading.
pub proof fn lemma_rpm_reads_two_bytes(first: Seq<u8>, second: Seq<u8>)
    requires
        first[5] == second[5],
        first[6] == second[6],
    ensures
        rpm_spec(first) == rpm_spec(second),
{
}

} // verus!
