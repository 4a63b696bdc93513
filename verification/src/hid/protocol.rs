//! ROG Pelta USB HID protocol: identifiers, opcodes and the Report 0xCC frame.
//!
//! Every command travels as Output report `0xCC`: the report ID followed by a
//! 64-byte payload, zero-filled, with the opcode at payload bytes 0.. and the
//! operation's parameters at payload bytes 4.. . Replies come back as Input
//! report `0xCC` echoing the opcode; their data region starts at payload
//! byte 4.

use vstd::prelude::*;

verus! {

pub const ASUS_VID: u16 = 0x0b05;

/// Pelta 2.4 GHz dongle.
pub const PELTA_WIRELESS_PID: u16 = 0x1b84;

/// Pelta wired (USB-C).
pub const PELTA_WIRED_PID: u16 = 0x1b82;

/// Usage page of the vendor command collection.
pub const VENDOR_USAGE_PAGE: u16 = 0xff00;

/// Report ID of the command channel, both directions.
pub const REPORT_CMD: u8 = 0xCC;

/// Payload bytes of a command report (report ID excluded).
pub const CMD_PAYLOAD_LEN: usize = 64;

/// Bytes on the wire: report ID plus payload.
pub const FRAME_LEN: usize = 65;

/// Payload index at which parameters (requests) and data (replies) start.
pub const DATA_OFFSET: usize = 4;

pub const OP_GET_FW_VERSION: [u8; 2] = [0x12, 0x00];

pub const OP_GET_POWER_INFO: [u8; 2] = [0x12, 0x07];

pub const OP_GET_CHARGING_STATE: [u8; 2] = [0x12, 0x08];

pub const OP_GET_LED_ON_OFF: [u8; 2] = [0x12, 0x13];

pub const OP_GET_SIDETONE_VOLUME: [u8; 2] = [0x12, 0x19];

pub const OP_GET_SIDETONE_ON_OFF: [u8; 2] = [0x12, 0x24];

pub const OP_GET_LATENCY_MODE: [u8; 2] = [0x12, 0x52];

/// Wireless only: the dongle reports whether the headset is in range.
pub const OP_GET_HEADSET_EXIST: [u8; 4] = [0x12, 0x00, 0x00, 0x01];

pub const OP_GET_NR_ON_OFF: [u8; 2] = [0x41, 0x20];

pub const OP_SET_LIGHT_EFFECT: [u8; 2] = [0x51, 0x28];

pub const OP_SET_SW_LED_COLOR: [u8; 4] = [0x51, 0x30, 0x00, 0x00];

pub const OP_SET_DEMO_MODE_ON_OFF: [u8; 2] = [0x51, 0x31];

pub const OP_SET_LATENCY_MODE: [u8; 2] = [0x51, 0x52];

pub const OP_SET_NR_ON_OFF: [u8; 2] = [0x41, 0x02];

/// Light-effect mode bytes the device accepts: static, breathing, strobe,
/// rainbow.
pub const LIGHT_EFFECT_MODES: [u8; 4] = [1, 2, 3, 4];

/// Latency presets (ms) the device accepts; it silently ignores others.
pub const LATENCY_MODE_VALUES_MS: [u8; 4] = [40, 60, 80, 100];

/// Byte `i` of the frame carrying `opcode` and `params`.
pub open spec fn frame_byte(opcode: Seq<u8>, params: Seq<u8>, i: int) -> u8 {
    if i == 0 {
        REPORT_CMD
    } else if 1 <= i < 1 + opcode.len() {
        opcode[i - 1]
    } else if 1 + DATA_OFFSET <= i < 1 + DATA_OFFSET + params.len() {
        params[i - 1 - DATA_OFFSET]
    } else {
        0
    }
}

/// The 65-byte Output report for `opcode` with `params`.
pub open spec fn frame(opcode: Seq<u8>, params: Seq<u8>) -> Seq<u8> {
    Seq::new(FRAME_LEN as nat, |i: int| frame_byte(opcode, params, i))
}

/// An opcode and parameters that fit the payload layout.
pub open spec fn fits(opcode: Seq<u8>, params: Seq<u8>) -> bool {
    opcode.len() <= DATA_OFFSET && params.len() <= CMD_PAYLOAD_LEN - DATA_OFFSET
}

/// Builds the wire frame: report ID `0xCC`, then the zero-filled 64-byte
/// payload with `opcode` at byte 0.. and `params` at byte 4.. .
pub fn build_frame(opcode: &[u8], params: &[u8]) -> (f: Vec<u8>)
    requires
        fits(opcode@, params@),
    ensures
        f@ == frame(opcode@, params@),
{
    let mut f: Vec<u8> = Vec::new();
    let mut i: usize = 0;
    while i < FRAME_LEN
        invariant
            i <= FRAME_LEN,
            fits(opcode@, params@),
            f@ =~= frame(opcode@, params@).take(i as int),
        decreases FRAME_LEN - i,
    {
        let b = if i == 0 {
            REPORT_CMD
        } else if i < 1 + opcode.len() {
            opcode[i - 1]
        } else if 1 + DATA_OFFSET <= i && i < 1 + DATA_OFFSET + params.len() {
            params[i - 1 - DATA_OFFSET]
        } else {
            0
        };
        f.push(b);
        i += 1;
    }
    f
}

/// `report` is an Input report 0xCC whose payload starts with `opcode`.
pub open spec fn answers(report: Seq<u8>, opcode: Seq<u8>) -> bool {
    &&& report.len() == FRAME_LEN
    &&& 1 + opcode.len() <= report.len()
    &&& report[0] == REPORT_CMD
    &&& report.subrange(1, 1 + opcode.len() as int) == opcode
}

/// Law: a report answers an opcode exactly when it is an Input report
/// `0xCC` that echoes every byte of the opcode right after the report ID. A
/// report that differs from the opcode at any of its positions answers
/// something else.
pub proof fn answers_means_whole_opcode_echoed(report: Seq<u8>, opcode: Seq<u8>)
    requires
        report.len() == 65,
        opcode.len() <= 64,
    ensures
        answers(report, opcode) <==> (report[0] == 0xCC && forall|j: int|
            0 <= j < opcode.len() ==> #[trigger] report[1 + j] == opcode[j]),
{
    if report[0] == 0xCC && forall|j: int|
        0 <= j < opcode.len() ==> #[trigger] report[1 + j] == opcode[j] {
        assert forall|k: int| 0 <= k < opcode.len() implies #[trigger] report.subrange(
            1,
            1 + opcode.len() as int,
        )[k] == opcode[k] by {
            assert(report[1 + k] == opcode[k]);
        }
        assert(report.subrange(1, 1 + opcode.len() as int) =~= opcode);
    }
    if answers(report, opcode) {
        assert forall|j: int| 0 <= j < opcode.len() implies #[trigger] report[1 + j] == opcode[j] by {
            assert(report.subrange(1, 1 + opcode.len() as int)[j] == report[1 + j]);
        }
    }
}

/// The payload of a report: everything after the report ID.
pub open spec fn payload_of(report: Seq<u8>) -> Seq<u8> {
    report.subrange(1, FRAME_LEN as int)
}

/// The payload of `report` if it answers `opcode`, `None` otherwise.
pub fn response_payload(report: &[u8], opcode: &[u8]) -> (r: Option<Vec<u8>>)
    requires
        report@.len() == FRAME_LEN,
        opcode@.len() <= CMD_PAYLOAD_LEN,
    ensures
        r is Some <==> answers(report@, opcode@),
        r matches Some(p) ==> p@ == payload_of(report@),
{
    if report[0] != REPORT_CMD {
        return None;
    }
    let mut k: usize = 0;
    while k < opcode.len()
        invariant
            report@.len() == FRAME_LEN,
            opcode@.len() <= CMD_PAYLOAD_LEN,
            k <= opcode@.len(),
            forall|j: int| 0 <= j < k ==> report@[1 + j] == opcode@[j],
        decreases opcode@.len() - k,
    {
        if report[1 + k] != opcode[k] {
            assert(report@.subrange(1, 1 + opcode@.len() as int)[k as int] != opcode@[k as int]);
            return None;
        }
        k += 1;
    }
    assert(report@.subrange(1, 1 + opcode@.len() as int) =~= opcode@);
    let mut p: Vec<u8> = Vec::new();
    let mut i: usize = 1;
    while i < FRAME_LEN
        invariant
            report@.len() == FRAME_LEN,
            1 <= i <= FRAME_LEN,
            p@ =~= report@.subrange(1, i as int),
        decreases FRAME_LEN - i,
    {
        p.push(report[i]);
        i += 1;
    }
    Some(p)
}

/// Law: a reply that echoes a request frame verbatim answers that request,
/// and its payload holds the opcode at byte 0.. and the parameters at
/// byte 4.. .
pub proof fn echoed_frame_answers_request(opcode: Seq<u8>, params: Seq<u8>)
    requires
        fits(opcode, params),
    ensures
        answers(frame(opcode, params), opcode),
        payload_of(frame(opcode, params)).subrange(0, opcode.len() as int) == opcode,
        payload_of(frame(opcode, params)).subrange(
            DATA_OFFSET as int,
            DATA_OFFSET + params.len(),
        ) == params,
{
    let f = frame(opcode, params);
    assert(f.subrange(1, 1 + opcode.len() as int) =~= opcode);
    assert(payload_of(f).subrange(0, opcode.len() as int) =~= opcode);
    assert(payload_of(f).subrange(DATA_OFFSET as int, DATA_OFFSET + params.len()) =~= params);
}

} // verus!
