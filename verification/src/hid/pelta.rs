//! Pelta device logic: finding the vendor command interface, encoding every
//! command the device takes, decoding its replies, and the request/reply
//! exchange of a query as a state machine the HID layer drives.

use vstd::prelude::*;
use super::protocol::{
    answers, build_frame, frame, payload_of, response_payload, ASUS_VID, CMD_PAYLOAD_LEN,
    DATA_OFFSET, FRAME_LEN, LATENCY_MODE_VALUES_MS, LIGHT_EFFECT_MODES, OP_SET_DEMO_MODE_ON_OFF,
    OP_SET_LATENCY_MODE, OP_SET_LIGHT_EFFECT, OP_SET_NR_ON_OFF, OP_SET_SW_LED_COLOR,
    PELTA_WIRED_PID, PELTA_WIRELESS_PID, VENDOR_USAGE_PAGE,
};
use super::{DeviceError, PowerInfo, Rgb};
use crate::text::{hex_byte, push_char, push_hex_byte};

verus! {

/// The identity of one HID interface as the HID enumeration reports it.
#[derive(Debug, Clone, Copy)]
pub struct HidInterface {
    pub vendor_id: u16,
    pub product_id: u16,
    pub usage_page: u16,
}

/// The interface is the vendor command collection of a wired or 2.4 GHz Pelta.
pub open spec fn is_command_interface_spec(i: HidInterface) -> bool {
    i.vendor_id == ASUS_VID && (i.product_id == PELTA_WIRED_PID || i.product_id
        == PELTA_WIRELESS_PID) && i.usage_page == VENDOR_USAGE_PAGE
}

/// Law: the interface opened for commands is ASUS's (vendor 0x0B05) wired
/// (0x1B82) or 2.4 GHz (0x1B84) Pelta, on exactly the vendor command usage
/// page 0xFF00; its RF-state (0xFF07) and telemetry (0xFF0B) collections
/// are never taken.
pub proof fn command_interface_is_the_command_collection(i: HidInterface)
    ensures
        is_command_interface_spec(i) <==> (i.vendor_id == 0x0b05 && (i.product_id == 0x1b82
            || i.product_id == 0x1b84) && i.usage_page == 0xff00),
        i.usage_page == 0xff07 || i.usage_page == 0xff0b ==> !is_command_interface_spec(i),
{
}

pub fn is_command_interface(i: &HidInterface) -> (r: bool)
    ensures
        r == is_command_interface_spec(*i),
{
    i.vendor_id == ASUS_VID && (i.product_id == PELTA_WIRED_PID || i.product_id
        == PELTA_WIRELESS_PID) && i.usage_page == VENDOR_USAGE_PAGE
}

/// The first interface of the enumeration that a Pelta is opened through.
pub fn select_interface(list: &[HidInterface]) -> (r: Result<usize, DeviceError>)
    ensures
        r matches Ok(i) ==> i < list@.len() && is_command_interface_spec(list@[i as int]) && (
        forall|j: int| 0 <= j < i ==> !is_command_interface_spec(#[trigger] list@[j])),
        r is Err ==> r == Err::<usize, DeviceError>(DeviceError::InterfaceNotFound) && (forall|
            j: int,
        | 0 <= j < list@.len() ==> !is_command_interface_spec(#[trigger] list@[j])),
{
    let mut i: usize = 0;
    while i < list.len()
        invariant
            i <= list@.len(),
            forall|j: int| 0 <= j < i ==> !is_command_interface_spec(#[trigger] list@[j]),
        decreases list@.len() - i,
    {
        if is_command_interface(&list[i]) {
            return Ok(i);
        }
        i += 1;
    }
    Err(DeviceError::InterfaceNotFound)
}

fn contains_byte(list: &[u8], b: u8) -> (r: bool)
    ensures
        r == list@.contains(b),
{
    let mut i: usize = 0;
    while i < list.len()
        invariant
            i <= list@.len(),
            forall|j: int| 0 <= j < i ==> list@[j] != b,
        decreases list@.len() - i,
    {
        if list[i] == b {
            assert(list@[i as int] == b);
            return true;
        }
        i += 1;
    }
    false
}

/// Frame of `setSWLEDColor`: R, G, B at payload bytes 4, 5, 6.
pub fn led_color_frame(color: Rgb) -> (f: Vec<u8>)
    ensures
        f@ == frame(OP_SET_SW_LED_COLOR@, seq![color.r, color.g, color.b]),
{
    let params = [color.r, color.g, color.b];
    assert(params@ =~= seq![color.r, color.g, color.b]);
    build_frame(&OP_SET_SW_LED_COLOR, &params)
}

/// Frame of `setLightEffect`: mode, intensity, R, G, B at payload bytes 4..8.
/// Only the modes of `LIGHT_EFFECT_MODES` are sent.
pub fn light_effect_frame(mode: u8, intensity: u8, color: Rgb) -> (r: Result<Vec<u8>, DeviceError>)
    ensures
        r is Ok <==> LIGHT_EFFECT_MODES@.contains(mode),
        r matches Ok(f) ==> f@ == frame(
            OP_SET_LIGHT_EFFECT@,
            seq![mode, intensity, color.r, color.g, color.b],
        ),
        r matches Err(e) ==> e == DeviceError::InvalidLightEffectMode(mode),
{
    if !contains_byte(&LIGHT_EFFECT_MODES, mode) {
        return Err(DeviceError::InvalidLightEffectMode(mode));
    }
    let params = [mode, intensity, color.r, color.g, color.b];
    assert(params@ =~= seq![mode, intensity, color.r, color.g, color.b]);
    Ok(build_frame(&OP_SET_LIGHT_EFFECT, &params))
}

/// The parameter byte of a boolean setting.
pub open spec fn flag_byte(on: bool) -> u8 {
    if on { 1 } else { 0 }
}

/// Frame of `setNROnOff`.
pub fn noise_reduction_frame(on: bool) -> (f: Vec<u8>)
    ensures
        f@ == frame(OP_SET_NR_ON_OFF@, seq![flag_byte(on)]),
{
    let params = [if on { 1u8 } else { 0u8 }];
    assert(params@ =~= seq![flag_byte(on)]);
    build_frame(&OP_SET_NR_ON_OFF, &params)
}

/// Frame of `setDemoModeOnOff`.
pub fn demo_mode_frame(on: bool) -> (f: Vec<u8>)
    ensures
        f@ == frame(OP_SET_DEMO_MODE_ON_OFF@, seq![flag_byte(on)]),
{
    let params = [if on { 1u8 } else { 0u8 }];
    assert(params@ =~= seq![flag_byte(on)]);
    build_frame(&OP_SET_DEMO_MODE_ON_OFF, &params)
}

/// Frame of `setLatencyMode`. Only the presets of `LATENCY_MODE_VALUES_MS`
/// are sent: the device would silently ignore any other value.
pub fn latency_mode_frame(value_ms: u8) -> (r: Result<Vec<u8>, DeviceError>)
    ensures
        r is Ok <==> LATENCY_MODE_VALUES_MS@.contains(value_ms),
        r matches Ok(f) ==> f@ == frame(OP_SET_LATENCY_MODE@, seq![value_ms]),
        r matches Err(e) ==> e == DeviceError::InvalidLatency(value_ms),
{
    if !contains_byte(&LATENCY_MODE_VALUES_MS, value_ms) {
        return Err(DeviceError::InvalidLatency(value_ms));
    }
    let params = [value_ms];
    assert(params@ =~= seq![value_ms]);
    Ok(build_frame(&OP_SET_LATENCY_MODE, &params))
}

/// First data byte of a reply payload (payload byte 4, wire byte 5).
pub fn data_byte(payload: &Vec<u8>) -> (b: u8)
    requires
        payload@.len() == CMD_PAYLOAD_LEN,
    ensures
        b == payload@[DATA_OFFSET as int],
{
    payload[DATA_OFFSET]
}

/// A boolean reply: the first data byte is non-zero.
pub fn data_flag(payload: &Vec<u8>) -> (b: bool)
    requires
        payload@.len() == CMD_PAYLOAD_LEN,
    ensures
        b == (payload@[DATA_OFFSET as int] != 0),
{
    payload[DATA_OFFSET] != 0
}

/// Four bytes as `%02X.%02X.%02X.%02X`.
pub open spec fn dotted_hex(a: u8, b: u8, c: u8, d: u8) -> Seq<char> {
    hex_byte(a, true) + seq!['.'] + hex_byte(b, true) + seq!['.'] + hex_byte(c, true) + seq!['.']
        + hex_byte(d, true)
}

/// The firmware text of a getFWVersion reply: the FW revision (data bytes
/// 4..8) then, in parentheses, the HW revision (data bytes 0..4), e.g.
/// `03.00.04.00 (hw 03.00.04.00)`.
pub open spec fn firmware_text(p: Seq<u8>) -> Seq<char> {
    dotted_hex(p[8], p[9], p[10], p[11]) + seq![' ', '(', 'h', 'w', ' '] + dotted_hex(
        p[4],
        p[5],
        p[6],
        p[7],
    ) + seq![')']
}

fn push_dotted_hex(s: &mut String, a: u8, b: u8, c: u8, d: u8)
    ensures
        final(s)@ == old(s)@ + dotted_hex(a, b, c, d),
{
    push_hex_byte(s, a, true);
    push_char(s, '.');
    push_hex_byte(s, b, true);
    push_char(s, '.');
    push_hex_byte(s, c, true);
    push_char(s, '.');
    push_hex_byte(s, d, true);
    assert(final(s)@ =~= old(s)@ + dotted_hex(a, b, c, d));
}

/// Renders the getFWVersion reply payload.
pub fn decode_firmware_version(payload: &Vec<u8>) -> (s: String)
    requires
        payload@.len() == CMD_PAYLOAD_LEN,
    ensures
        s@ == firmware_text(payload@),
{
    let mut s = String::new();
    push_dotted_hex(&mut s, payload[8], payload[9], payload[10], payload[11]);
    push_char(&mut s, ' ');
    push_char(&mut s, '(');
    push_char(&mut s, 'h');
    push_char(&mut s, 'w');
    push_char(&mut s, ' ');
    push_dotted_hex(&mut s, payload[4], payload[5], payload[6], payload[7]);
    push_char(&mut s, ')');
    assert(s@ =~= firmware_text(payload@));
    s
}

/// Combines the getPowerInfo and getChargingState reply payloads.
pub fn decode_power_info(power: &Vec<u8>, charging: &Vec<u8>) -> (info: PowerInfo)
    requires
        power@.len() == CMD_PAYLOAD_LEN,
        charging@.len() == CMD_PAYLOAD_LEN,
    ensures
        info.percent == power@[5],
        info.charging == (charging@[4] != 0),
        info.raw@ == power@.subrange(4, 8),
{
    let raw = [power[4], power[5], power[6], power[7]];
    assert(raw@ =~= power@.subrange(4, 8));
    PowerInfo { percent: power[5], charging: charging[4] != 0, raw }
}

/// Read timeout while draining stale replies: do not wait.
pub const DRAIN_TIMEOUT_MS: i32 = 0;

/// Read timeout while waiting for the reply.
pub const REPLY_TIMEOUT_MS: i32 = 1000;

/// Replies read, at most, after sending a query before giving up.
pub const MAX_REPLY_READS: u8 = 8;

/// Where a query stands.
#[derive(Debug, Clone, Copy, PartialEq, Eq, Structural)]
pub enum QueryStage {
    /// Discarding Input reports left over from earlier exchanges.
    Draining,
    /// The request frame is to be written.
    Sending,
    /// Waiting for the reply; the number is how many replies were read.
    Awaiting(u8),
    Finished,
}

/// What the HID layer is to do next for a query.
#[derive(Debug)]
pub enum QueryAction {
    /// Read one Input report (65 bytes) with the given timeout.
    Read { timeout_ms: i32 },
    /// Write this Output report.
    Write(Vec<u8>),
    /// The query is over, with this outcome (the reply payload).
    Finish(Result<Vec<u8>, DeviceError>),
}

/// One request/reply exchange on the command channel. Because the device
/// handle stays open, replies queue up: the query first drains stale reports,
/// then writes its request, then reads until a reply echoes its opcode.
pub struct Query {
    opcode: Vec<u8>,
    stage: QueryStage,
}

impl Query {
    pub closed spec fn opcode(&self) -> Seq<u8> {
        self.opcode@
    }

    pub closed spec fn stage(&self) -> QueryStage {
        self.stage
    }

    /// The query's invariant: a GET opcode, and fewer than eight replies read
    /// while awaiting.
    pub open spec fn wf(&self) -> bool {
        &&& self.opcode().len() <= DATA_OFFSET
        &&& self.stage() matches QueryStage::Awaiting(k) ==> k < MAX_REPLY_READS
    }

    /// Starts a query for `opcode`; the first action drains without waiting.
    pub fn new(opcode: &[u8]) -> (r: (Query, QueryAction))
        requires
            opcode@.len() <= DATA_OFFSET,
        ensures
            r.0.wf(),
            r.0.opcode() == opcode@,
            r.0.stage() == QueryStage::Draining,
            r.1 matches QueryAction::Read { timeout_ms } && timeout_ms == DRAIN_TIMEOUT_MS,
    {
        let mut op: Vec<u8> = Vec::new();
        let mut i: usize = 0;
        while i < opcode.len()
            invariant
                i <= opcode@.len(),
                op@ =~= opcode@.take(i as int),
            decreases opcode@.len() - i,
        {
            op.push(opcode[i]);
            i += 1;
        }
        assert(opcode@.take(opcode@.len() as int) =~= opcode@);
        (Query { opcode: op, stage: QueryStage::Draining }, QueryAction::Read { timeout_ms: DRAIN_TIMEOUT_MS })
    }

    pub fn is_finished(&self) -> (r: bool)
        ensures
            r == (self.stage() == QueryStage::Finished),
    {
        self.stage == QueryStage::Finished
    }

    /// Feeds the outcome of a `Read`: `n` bytes arrived into `report` (zero
    /// bytes: nothing within the timeout).
    pub fn on_read(&mut self, n: usize, report: &[u8]) -> (a: QueryAction)
        requires
            old(self).wf(),
            old(self).stage() matches QueryStage::Draining || old(self).stage() matches QueryStage::Awaiting(_),
            report@.len() == FRAME_LEN,
        ensures
            final(self).wf(),
            final(self).opcode() == old(self).opcode(),
            old(self).stage() == QueryStage::Draining ==> if n > 0 {
                &&& final(self).stage() == QueryStage::Draining
                &&& a matches QueryAction::Read { timeout_ms } && timeout_ms == DRAIN_TIMEOUT_MS
            } else {
                &&& final(self).stage() == QueryStage::Sending
                &&& a matches QueryAction::Write(f) && f@ == frame(old(self).opcode(), Seq::empty())
            },
            old(self).stage() matches QueryStage::Awaiting(k) ==> if n == 0 {
                &&& final(self).stage() == QueryStage::Finished
                &&& a matches QueryAction::Finish(Err(DeviceError::NoMatchingResponse(op))) && op@
                    == old(self).opcode()
            } else if answers(report@, old(self).opcode()) {
                &&& final(self).stage() == QueryStage::Finished
                &&& a matches QueryAction::Finish(Ok(p)) && p@ == payload_of(report@)
            } else if k + 1 < MAX_REPLY_READS {
                &&& final(self).stage() == QueryStage::Awaiting((k + 1) as u8)
                &&& a matches QueryAction::Read { timeout_ms } && timeout_ms == REPLY_TIMEOUT_MS
            } else {
                &&& final(self).stage() == QueryStage::Finished
                &&& a matches QueryAction::Finish(Err(DeviceError::NoMatchingResponse(op))) && op@
                    == old(self).opcode()
            },
    {
        match self.stage {
            QueryStage::Draining => {
                if n > 0 {
                    QueryAction::Read { timeout_ms: DRAIN_TIMEOUT_MS }
                } else {
                    self.stage = QueryStage::Sending;
                    let empty: [u8; 0] = [];
                    assert(empty@ =~= Seq::<u8>::empty());
                    QueryAction::Write(build_frame(self.opcode.as_slice(), &empty))
                }
            },
            QueryStage::Awaiting(k) => {
                if n == 0 {
                    self.stage = QueryStage::Finished;
                    return QueryAction::Finish(Err(DeviceError::NoMatchingResponse(self.opcode.clone())));
                }
                match response_payload(report, self.opcode.as_slice()) {
                    Some(p) => {
                        self.stage = QueryStage::Finished;
                        QueryAction::Finish(Ok(p))
                    },
                    None => {
                        if k + 1 < MAX_REPLY_READS {
                            self.stage = QueryStage::Awaiting(k + 1);
                            QueryAction::Read { timeout_ms: REPLY_TIMEOUT_MS }
                        } else {
                            self.stage = QueryStage::Finished;
                            QueryAction::Finish(Err(DeviceError::NoMatchingResponse(self.opcode.clone())))
                        }
                    },
                }
            },
            // Not reached: reads are only awaited while draining or awaiting.
            _ => QueryAction::Finish(Err(DeviceError::NoMatchingResponse(self.opcode.clone()))),
        }
    }

    /// Feeds the completion of a `Write`; the reply is then awaited.
    pub fn on_written(&mut self) -> (a: QueryAction)
        requires
            old(self).wf(),
            old(self).stage() == QueryStage::Sending,
        ensures
            final(self).wf(),
            final(self).opcode() == old(self).opcode(),
            final(self).stage() == QueryStage::Awaiting(0),
            a matches QueryAction::Read { timeout_ms } && timeout_ms == REPLY_TIMEOUT_MS,
    {
        self.stage = QueryStage::Awaiting(0);
        QueryAction::Read { timeout_ms: REPLY_TIMEOUT_MS }
    }

    /// Feeds a failure of the HID layer; the query ends with it.
    pub fn on_error(&mut self, e: DeviceError) -> (a: QueryAction)
        requires
            old(self).wf(),
        ensures
            final(self).wf(),
            final(self).opcode() == old(self).opcode(),
            final(self).stage() == QueryStage::Finished,
            a matches QueryAction::Finish(Err(e2)) && e2 == e,
    {
        self.stage = QueryStage::Finished;
        QueryAction::Finish(Err(e))
    }
}

} // verus!
