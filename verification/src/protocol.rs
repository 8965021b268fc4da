//! The format-negotiating command transmitter. The firmware's report-id
//! and report-type conventions are unknown, so a logical command (opcode
//! plus payload bytes) is encoded under an ordered, fixed list of wire
//! format hypotheses, tried one after another until the device's USB stack
//! accepts one. The control transfers themselves are I/O and run outside;
//! this module decides what to send, in which order, and what exhaustion
//! means.

use vstd::prelude::*;

verus! {

// Vendor-defined logical opcodes (single bytes).
pub const CMD_GENERATE_DATA: u8 = 0xB5;

pub const CMD_SET_LED: u8 = 0xB6;

pub const CMD_SET_FLASH_FREQ: u8 = 0xB7;

pub const CMD_SET_TIMESTAMP: u8 = 0xB8;

pub const CMD_GET_DESCRIPTOR: u8 = 0xC1;

pub const CMD_SET_UNIT_ID: u8 = 0xC9;

pub const CMD_SET_PID: u8 = 0xCA;

pub const CMD_REBOOT: u8 = 0xCB;

pub const CMD_SET_KEY_MACRO: u8 = 0xCC;

pub const CMD_GET_KEY_MACRO: u8 = 0xCD;

pub const CMD_SAVE_TO_EEPROM: u8 = 0xCE;

// Class-specific HID control-transfer constants.
pub const HID_REQUEST_TYPE_CLASS_INTERFACE_OUT: u8 = 0x21;

pub const HID_REQUEST_TYPE_CLASS_INTERFACE_IN: u8 = 0xA1;

pub const HID_SET_REPORT: u8 = 0x09;

pub const HID_GET_REPORT: u8 = 0x01;

pub const HID_REPORT_TYPE_INPUT: u16 = 0x0100;

pub const HID_REPORT_TYPE_OUTPUT: u16 = 0x0200;

pub const HID_REPORT_TYPE_FEATURE: u16 = 0x0300;

pub const USB_REQUEST_TYPE_VENDOR_OUT: u8 = 0x40;

/// How a hypothesis types the report on the wire.
#[derive(Clone, Copy, PartialEq, Eq, Structural, Debug)]
pub enum ReportKind {
    /// Class-specific SET_REPORT with the feature report type.
    Feature,
    /// Class-specific SET_REPORT with the output report type.
    Output,
    /// A raw vendor-class request carrying the payload in the setup packet.
    Vendor,
}

/// Where a hypothesis puts the opcode relative to the report id.
#[derive(Clone, Copy, PartialEq, Eq, Structural, Debug)]
pub enum IdPlacement {
    /// The opcode is the first payload byte; no leading report-id byte.
    OpcodeFirst,
    /// A zero report-id byte leads, the opcode follows it.
    LeadingZero,
    /// The opcode is the report id (low byte of `wValue`); the buffer
    /// starts directly at the argument bytes.
    OpcodeAsReportId,
}

/// One candidate wire encoding for a logical command.
#[derive(Clone, Copy, PartialEq, Eq, Structural, Debug)]
pub struct WireFormatHypothesis {
    pub kind: ReportKind,
    pub placement: IdPlacement,
    /// The buffer length on the wire: the 8-byte short form or the 36-byte
    /// long form of the vendor SDK's maximum report size.
    pub length: usize,
}

/// The fixed, ordered hypothesis list: every short (8-byte) form first,
/// feature before output; then the long (36-byte) forms; the raw vendor
/// request last. The engine never learns across commands: each command
/// walks this list from the top.
pub open spec fn spec_hypotheses() -> Seq<WireFormatHypothesis> {
    seq![
        WireFormatHypothesis {
            kind: ReportKind::Feature,
            placement: IdPlacement::OpcodeFirst,
            length: 8,
        },
        WireFormatHypothesis {
            kind: ReportKind::Feature,
            placement: IdPlacement::LeadingZero,
            length: 8,
        },
        WireFormatHypothesis {
            kind: ReportKind::Feature,
            placement: IdPlacement::OpcodeAsReportId,
            length: 8,
        },
        WireFormatHypothesis {
            kind: ReportKind::Output,
            placement: IdPlacement::OpcodeFirst,
            length: 8,
        },
        WireFormatHypothesis {
            kind: ReportKind::Output,
            placement: IdPlacement::LeadingZero,
            length: 8,
        },
        WireFormatHypothesis {
            kind: ReportKind::Output,
            placement: IdPlacement::OpcodeAsReportId,
            length: 8,
        },
        WireFormatHypothesis {
            kind: ReportKind::Output,
            placement: IdPlacement::LeadingZero,
            length: 36,
        },
        WireFormatHypothesis {
            kind: ReportKind::Output,
            placement: IdPlacement::OpcodeFirst,
            length: 36,
        },
        WireFormatHypothesis {
            kind: ReportKind::Feature,
            placement: IdPlacement::LeadingZero,
            length: 36,
        },
        WireFormatHypothesis {
            kind: ReportKind::Feature,
            placement: IdPlacement::OpcodeFirst,
            length: 36,
        },
        WireFormatHypothesis {
            kind: ReportKind::Vendor,
            placement: IdPlacement::OpcodeAsReportId,
            length: 0,
        },
    ]
}

/// How many hypotheses the list holds.
pub open spec fn spec_hypothesis_count() -> int {
    spec_hypotheses().len() as int
}

/// The fixed hypothesis list as a vector.
pub fn hypotheses() -> (r: Vec<WireFormatHypothesis>)
    ensures
        r@ == spec_hypotheses(),
{
    let mut r: Vec<WireFormatHypothesis> = Vec::new();
    r.push(
        WireFormatHypothesis { kind: ReportKind::Feature, placement: IdPlacement::OpcodeFirst, length: 8 },
    );
    r.push(
        WireFormatHypothesis { kind: ReportKind::Feature, placement: IdPlacement::LeadingZero, length: 8 },
    );
    r.push(
        WireFormatHypothesis {
            kind: ReportKind::Feature,
            placement: IdPlacement::OpcodeAsReportId,
            length: 8,
        },
    );
    r.push(
        WireFormatHypothesis { kind: ReportKind::Output, placement: IdPlacement::OpcodeFirst, length: 8 },
    );
    r.push(
        WireFormatHypothesis { kind: ReportKind::Output, placement: IdPlacement::LeadingZero, length: 8 },
    );
    r.push(
        WireFormatHypothesis {
            kind: ReportKind::Output,
            placement: IdPlacement::OpcodeAsReportId,
            length: 8,
        },
    );
    r.push(
        WireFormatHypothesis { kind: ReportKind::Output, placement: IdPlacement::LeadingZero, length: 36 },
    );
    r.push(
        WireFormatHypothesis { kind: ReportKind::Output, placement: IdPlacement::OpcodeFirst, length: 36 },
    );
    r.push(
        WireFormatHypothesis { kind: ReportKind::Feature, placement: IdPlacement::LeadingZero, length: 36 },
    );
    r.push(
        WireFormatHypothesis { kind: ReportKind::Feature, placement: IdPlacement::OpcodeFirst, length: 36 },
    );
    r.push(
        WireFormatHypothesis {
            kind: ReportKind::Vendor,
            placement: IdPlacement::OpcodeAsReportId,
            length: 0,
        },
    );
    proof {
        assert(r@ =~= spec_hypotheses());
    }
    r
}

/// The display label of a hypothesis.
pub open spec fn spec_label(h: WireFormatHypothesis) -> Seq<char> {
    match h.kind {
        ReportKind::Vendor => "vendor"@,
        ReportKind::Feature => if h.length == 36 {
            match h.placement {
                IdPlacement::OpcodeFirst => "36b-feat-cmd"@,
                IdPlacement::LeadingZero => "36b-feat-prefix"@,
                IdPlacement::OpcodeAsReportId => "36b-feat-ridcmd"@,
            }
        } else {
            match h.placement {
                IdPlacement::OpcodeFirst => "feat-rid0-cmd"@,
                IdPlacement::LeadingZero => "feat-rid0-prefix"@,
                IdPlacement::OpcodeAsReportId => "feat-ridcmd"@,
            }
        },
        ReportKind::Output => if h.length == 36 {
            match h.placement {
                IdPlacement::OpcodeFirst => "36b-out-cmd"@,
                IdPlacement::LeadingZero => "36b-out-prefix"@,
                IdPlacement::OpcodeAsReportId => "36b-out-ridcmd"@,
            }
        } else {
            match h.placement {
                IdPlacement::OpcodeFirst => "out-rid0-cmd"@,
                IdPlacement::LeadingZero => "out-rid0-prefix"@,
                IdPlacement::OpcodeAsReportId => "out-ridcmd"@,
            }
        },
    }
}

/// Names a hypothesis for diagnostics.
pub fn label(h: &WireFormatHypothesis) -> (r: &'static str)
    ensures
        r@ == spec_label(*h),
{
    match h.kind {
        ReportKind::Vendor => "vendor",
        ReportKind::Feature => if h.length == 36 {
            match h.placement {
                IdPlacement::OpcodeFirst => "36b-feat-cmd",
                IdPlacement::LeadingZero => "36b-feat-prefix",
                IdPlacement::OpcodeAsReportId => "36b-feat-ridcmd",
            }
        } else {
            match h.placement {
                IdPlacement::OpcodeFirst => "feat-rid0-cmd",
                IdPlacement::LeadingZero => "feat-rid0-prefix",
                IdPlacement::OpcodeAsReportId => "feat-ridcmd",
            }
        },
        ReportKind::Output => if h.length == 36 {
            match h.placement {
                IdPlacement::OpcodeFirst => "36b-out-cmd",
                IdPlacement::LeadingZero => "36b-out-prefix",
                IdPlacement::OpcodeAsReportId => "36b-out-ridcmd",
            }
        } else {
            match h.placement {
                IdPlacement::OpcodeFirst => "out-rid0-cmd",
                IdPlacement::LeadingZero => "out-rid0-prefix",
                IdPlacement::OpcodeAsReportId => "out-ridcmd",
            }
        },
    }
}

/// One USB control transfer to issue: setup packet fields, the bytes to
/// send, how many bytes to read back, and the transfer's timeout.
#[derive(Debug)]
pub struct ControlRequest {
    pub request_type: u8,
    pub request: u8,
    pub value: u16,
    pub index: u16,
    pub data: Vec<u8>,
    pub read_len: usize,
    pub timeout_ms: u64,
}

/// The view of a control request.
pub struct ControlRequestV {
    pub request_type: u8,
    pub request: u8,
    pub value: u16,
    pub index: u16,
    pub data: Seq<u8>,
    pub read_len: usize,
    pub timeout_ms: u64,
}

/// The view of a control request.
pub open spec fn spec_request_view(r: ControlRequest) -> ControlRequestV {
    ControlRequestV {
        request_type: r.request_type,
        request: r.request,
        value: r.value,
        index: r.index,
        data: r.data@,
        read_len: r.read_len,
        timeout_ms: r.timeout_ms,
    }
}

/// A run of zero bytes.
pub open spec fn spec_zeros(n: int) -> Seq<u8> {
    Seq::new(n as nat, |i: int| 0u8)
}

/// Whether a hypothesis can carry a payload of this length: the vendor
/// form packs exactly the three key-macro bytes into the setup packet,
/// the report forms need room for the opcode (and a leading id byte)
/// within their buffer.
pub open spec fn spec_applicable(h: WireFormatHypothesis, payload_len: int) -> bool {
    match h.kind {
        ReportKind::Vendor => payload_len == 3,
        _ => payload_len + 2 <= h.length,
    }
}

/// The per-attempt transfer timeout, bounding every control transfer.
pub const ATTEMPT_TIMEOUT_MS: u64 = 500;

/// The wire encoding of a logical command under a hypothesis: which setup
/// packet is sent and which bytes the buffer holds, byte for byte.
pub open spec fn spec_encode(
    h: WireFormatHypothesis,
    opcode: u8,
    payload: Seq<u8>,
    interface: u8,
) -> ControlRequestV {
    match h.kind {
        ReportKind::Vendor => ControlRequestV {
            request_type: USB_REQUEST_TYPE_VENDOR_OUT,
            request: opcode,
            value: (((payload[2] as u16) << 8) | (payload[1] as u16)) as u16,
            index: payload[0] as u16,
            data: Seq::<u8>::empty(),
            read_len: 0,
            timeout_ms: ATTEMPT_TIMEOUT_MS,
        },
        _ => {
            let base: u16 = if h.kind == ReportKind::Feature {
                HID_REPORT_TYPE_FEATURE
            } else {
                HID_REPORT_TYPE_OUTPUT
            };
            let (value, data): (u16, Seq<u8>) = match h.placement {
                IdPlacement::OpcodeFirst => (
                    base,
                    seq![opcode] + payload + spec_zeros(h.length - 1 - payload.len()),
                ),
                IdPlacement::LeadingZero => (
                    base,
                    seq![0u8, opcode] + payload + spec_zeros(h.length - 2 - payload.len()),
                ),
                IdPlacement::OpcodeAsReportId => (
                    (base | (opcode as u16)) as u16,
                    payload + spec_zeros(h.length - payload.len()),
                ),
            };
            ControlRequestV {
                request_type: HID_REQUEST_TYPE_CLASS_INTERFACE_OUT,
                request: HID_SET_REPORT,
                value,
                index: interface as u16,
                data,
                read_len: 0,
                timeout_ms: ATTEMPT_TIMEOUT_MS,
            }
        },
    }
}

/// Encodes a logical command under one hypothesis, exactly as
/// [`spec_encode`] lays the bytes out.
pub fn encode(h: &WireFormatHypothesis, opcode: u8, payload: &Vec<u8>, interface: u8) -> (r:
    ControlRequest)
    requires
        spec_applicable(*h, payload@.len() as int),
        h.length <= 36,
    ensures
        spec_request_view(r) == spec_encode(*h, opcode, payload@, interface),
{
    match h.kind {
        ReportKind::Vendor => {
            let value: u16 = ((payload[2] as u16) << 8) | (payload[1] as u16);
            ControlRequest {
                request_type: USB_REQUEST_TYPE_VENDOR_OUT,
                request: opcode,
                value,
                index: payload[0] as u16,
                data: Vec::new(),
                read_len: 0,
                timeout_ms: ATTEMPT_TIMEOUT_MS,
            }
        },
        _ => {
            let base: u16 = if h.kind == ReportKind::Feature {
                HID_REPORT_TYPE_FEATURE
            } else {
                HID_REPORT_TYPE_OUTPUT
            };
            let mut data: Vec<u8> = Vec::new();
            let mut value: u16 = base;
            match h.placement {
                IdPlacement::OpcodeFirst => {
                    data.push(opcode);
                },
                IdPlacement::LeadingZero => {
                    data.push(0);
                    data.push(opcode);
                },
                IdPlacement::OpcodeAsReportId => {
                    value = base | (opcode as u16);
                },
            }
            let ghost head = data@;
            let m = payload.len();
            let mut i: usize = 0;
            while i < m
                invariant
                    i <= m,
                    m == payload@.len(),
                    data@ =~= head + payload@.take(i as int),
                decreases m - i,
            {
                data.push(payload[i]);
                i = i + 1;
                proof {
                    assert(data@ =~= head + payload@.take(i as int));
                }
            }
            proof {
                assert(payload@.take(m as int) =~= payload@);
            }
            let target = h.length;
            while data.len() < target
                invariant
                    data@.len() >= head.len() + payload@.len(),
                    data@.subrange(0, (head.len() + payload@.len()) as int) =~= head + payload@,
                    forall|j: int|
                        head.len() + payload@.len() <= j < data@.len() ==> data@[j] == 0u8,
                    data@.len() <= target || data@.len() == head.len() + payload@.len(),
                    target <= 36,
                decreases target - data@.len(),
            {
                data.push(0);
            }
            proof {
                assert(data@.len() == target);
                assert(data@ =~= head + payload@ + spec_zeros(
                    h.length - head.len() - payload@.len(),
                ));
                match h.placement {
                    IdPlacement::OpcodeFirst => {
                        assert(head =~= seq![opcode]);
                        assert(data@ =~= seq![opcode] + payload@ + spec_zeros(
                            h.length - 1 - payload@.len(),
                        ));
                    },
                    IdPlacement::LeadingZero => {
                        assert(head =~= seq![0u8, opcode]);
                        assert(data@ =~= seq![0u8, opcode] + payload@ + spec_zeros(
                            h.length - 2 - payload@.len(),
                        ));
                    },
                    IdPlacement::OpcodeAsReportId => {
                        assert(head =~= Seq::<u8>::empty());
                        assert(data@ =~= payload@ + spec_zeros(h.length - payload@.len()));
                    },
                }
            }
            ControlRequest {
                request_type: HID_REQUEST_TYPE_CLASS_INTERFACE_OUT,
                request: HID_SET_REPORT,
                value,
                index: interface as u16,
                data,
                read_len: 0,
                timeout_ms: ATTEMPT_TIMEOUT_MS,
            }
        },
    }
}

/// The first applicable hypothesis index at or after `i`, or the list
/// length if none is left.
pub open spec fn spec_next_applicable(payload_len: int, i: int) -> int
    decreases spec_hypothesis_count() - i,
{
    if i < 0 || i >= spec_hypothesis_count() {
        spec_hypothesis_count()
    } else if spec_applicable(spec_hypotheses()[i], payload_len) {
        i
    } else {
        spec_next_applicable(payload_len, i + 1)
    }
}

/// Where the negotiation stands.
#[derive(Clone, Copy, PartialEq, Eq, Structural, Debug)]
pub enum TxState {
    /// The hypothesis at this index is the one to try next.
    Trying(usize),
    /// The hypothesis at this index was accepted; negotiation is over.
    Accepted(usize),
    /// Every hypothesis was tried and failed: the `NoAcceptedFormat`
    /// outcome, distinct from any transport fault.
    Exhausted,
}

/// The format-negotiating transmitter for one logical command. It walks
/// the fixed hypothesis list from the top — acceptance of a format for an
/// earlier command promises nothing for this one — and stops at the first
/// accepted attempt, or ends exhausted.
pub struct Transmitter {
    pub opcode: u8,
    pub payload: Vec<u8>,
    pub interface: u8,
    pub state: TxState,
}

impl Transmitter {
    /// The transmitter's validity: any index it holds is in range, and a
    /// pending index is the first applicable one of some suffix.
    pub open spec fn wf(&self) -> bool {
        &&& self.payload@.len() <= 6
        &&& match self.state {
            TxState::Trying(i) => i < spec_hypothesis_count() && spec_applicable(
                spec_hypotheses()[i as int],
                self.payload@.len() as int,
            ),
            TxState::Accepted(i) => i < spec_hypothesis_count(),
            TxState::Exhausted => true,
        }
    }

    /// A transmitter for one logical command, positioned at the first
    /// applicable hypothesis (or exhausted if none applies).
    pub fn new(opcode: u8, payload: Vec<u8>, interface: u8) -> (r: Transmitter)
        requires
            payload@.len() <= 6,
        ensures
            r.wf(),
            r.opcode == opcode,
            r.payload@ == payload@,
            r.interface == interface,
            r.state == (if spec_next_applicable(payload@.len() as int, 0)
                < spec_hypothesis_count() {
                TxState::Trying(spec_next_applicable(payload@.len() as int, 0) as usize)
            } else {
                TxState::Exhausted
            }),
    {
        let state = Self::seek(&payload, 0);
        Transmitter { opcode, payload, interface, state }
    }

    /// The first applicable hypothesis at or after `from`, as a state.
    fn seek(payload: &Vec<u8>, from: usize) -> (r: TxState)
        requires
            payload@.len() <= 6,
        ensures
            r == (if spec_next_applicable(payload@.len() as int, from as int)
                < spec_hypothesis_count() {
                TxState::Trying(spec_next_applicable(payload@.len() as int, from as int) as usize)
            } else {
                TxState::Exhausted
            }),
            r matches TxState::Trying(i) ==> i < spec_hypothesis_count() && spec_applicable(
                spec_hypotheses()[i as int],
                payload@.len() as int,
            ),
    {
        let hs = hypotheses();
        let n = hs.len();
        let mut i = from;
        if i > n {
            i = n;
        }
        proof {
            if from > n {
                assert(spec_next_applicable(payload@.len() as int, from as int)
                    == spec_hypothesis_count());
                assert(spec_next_applicable(payload@.len() as int, n as int)
                    == spec_hypothesis_count());
            }
        }
        while i < n
            invariant
                i <= n,
                n == spec_hypothesis_count(),
                hs@ == spec_hypotheses(),
                payload@.len() <= 6,
                spec_next_applicable(payload@.len() as int, i as int) == spec_next_applicable(
                    payload@.len() as int,
                    if from as int <= n { from as int } else { n as int },
                ),
            decreases n - i,
        {
            let h = hs[i];
            let applicable = match h.kind {
                ReportKind::Vendor => payload.len() == 3,
                _ => payload.len() + 2 <= h.length,
            };
            if applicable {
                return TxState::Trying(i);
            }
            i = i + 1;
        }
        TxState::Exhausted
    }

    /// The attempt to issue now: the current hypothesis encoded over this
    /// command, or nothing if negotiation has ended.
    pub fn current(&self) -> (r: Option<ControlRequest>)
        requires
            self.wf(),
        ensures
            match self.state {
                TxState::Trying(i) => r matches Some(req) && spec_request_view(req)
                    == spec_encode(
                    spec_hypotheses()[i as int],
                    self.opcode,
                    self.payload@,
                    self.interface,
                ),
                _ => r is None,
            },
    {
        match self.state {
            TxState::Trying(i) => {
                let hs = hypotheses();
                let h = hs[i];
                Some(encode(&h, self.opcode, &self.payload, self.interface))
            },
            _ => None,
        }
    }

    /// The label of the current or accepted hypothesis.
    pub fn current_label(&self) -> (r: Option<&'static str>)
        requires
            self.wf(),
        ensures
            match self.state {
                TxState::Trying(i) => r matches Some(l) && l@ == spec_label(
                    spec_hypotheses()[i as int],
                ),
                TxState::Accepted(i) => r matches Some(l) && l@ == spec_label(
                    spec_hypotheses()[i as int],
                ),
                TxState::Exhausted => r is None,
            },
    {
        match self.state {
            TxState::Trying(i) => {
                let hs = hypotheses();
                Some(label(&hs[i]))
            },
            TxState::Accepted(i) => {
                let hs = hypotheses();
                Some(label(&hs[i]))
            },
            TxState::Exhausted => None,
        }
    }

    /// Records how the current attempt's transfer went: acceptance ends
    /// the negotiation at this hypothesis; any transport failure moves on
    /// to the next applicable hypothesis, and past the last one the
    /// negotiation is exhausted — the no-accepted-format outcome.
    pub fn on_result(&mut self, accepted: bool)
        requires
            old(self).wf(),
            old(self).state matches TxState::Trying(_),
        ensures
            final(self).wf(),
            final(self).opcode == old(self).opcode,
            final(self).payload@ == old(self).payload@,
            final(self).interface == old(self).interface,
            old(self).state matches TxState::Trying(i) ==> final(self).state == (if accepted {
                TxState::Accepted(i)
            } else if spec_next_applicable(old(self).payload@.len() as int, i + 1)
                < spec_hypothesis_count() {
                TxState::Trying(
                    spec_next_applicable(old(self).payload@.len() as int, i + 1) as usize,
                )
            } else {
                TxState::Exhausted
            }),
    {
        match self.state {
            TxState::Trying(i) => {
                if accepted {
                    self.state = TxState::Accepted(i);
                } else {
                    self.state = Self::seek(&self.payload, i + 1);
                }
            },
            _ => {},
        }
    }
}

/// The response-layout interpretations of a macro read-back: the echoed
/// (modifiers, key) pair under the first layout that matches, or nothing.
/// No firmware documentation fixes the layout, so a match is advisory.
pub open spec fn spec_interpret_readback(resp: Seq<u8>, pedal: u8) -> Option<(u8, u8)> {
    if resp[0] == CMD_GET_KEY_MACRO && resp[1] == pedal {
        Some((resp[2], resp[3]))
    } else if resp[1] == CMD_GET_KEY_MACRO && resp[2] == pedal {
        Some((resp[3], resp[4]))
    } else if resp[0] == pedal {
        Some((resp[1], resp[2]))
    } else {
        None
    }
}

/// Reads the echoed (modifiers, key) pair out of a read-back response
/// buffer, trying the known candidate layouts in order.
pub fn interpret_readback(resp: &[u8], pedal: u8) -> (r: Option<(u8, u8)>)
    requires
        resp@.len() >= 5,
    ensures
        r == spec_interpret_readback(resp@, pedal),
{
    if resp[0] == CMD_GET_KEY_MACRO && resp[1] == pedal {
        Some((resp[2], resp[3]))
    } else if resp[1] == CMD_GET_KEY_MACRO && resp[2] == pedal {
        Some((resp[3], resp[4]))
    } else if resp[0] == pedal {
        Some((resp[1], resp[2]))
    } else {
        None
    }
}

/// The read-back request variants, in the order they are tried: a
/// GET_REPORT for the feature then the input report type, each first with
/// the opcode as report id and then with report id zero.
pub open spec fn spec_readback_values() -> Seq<u16> {
    seq![
        (HID_REPORT_TYPE_FEATURE | (CMD_GET_KEY_MACRO as u16)) as u16,
        HID_REPORT_TYPE_FEATURE,
        (HID_REPORT_TYPE_INPUT | (CMD_GET_KEY_MACRO as u16)) as u16,
        HID_REPORT_TYPE_INPUT,
    ]
}

/// The ordered read-back requests for one pedal's verification.
pub fn readback_requests(interface: u8) -> (r: Vec<ControlRequest>)
    ensures
        r@.len() == spec_readback_values().len(),
        forall|k: int|
            0 <= k < r@.len() ==> spec_request_view(#[trigger] r@[k]) == (ControlRequestV {
                request_type: HID_REQUEST_TYPE_CLASS_INTERFACE_IN,
                request: HID_GET_REPORT,
                value: spec_readback_values()[k],
                index: interface as u16,
                data: Seq::<u8>::empty(),
                read_len: 64,
                timeout_ms: 200,
            }),
{
    let mut r: Vec<ControlRequest> = Vec::new();
    let mut values: Vec<u16> = Vec::new();
    values.push(HID_REPORT_TYPE_FEATURE | (CMD_GET_KEY_MACRO as u16));
    values.push(HID_REPORT_TYPE_FEATURE);
    values.push(HID_REPORT_TYPE_INPUT | (CMD_GET_KEY_MACRO as u16));
    values.push(HID_REPORT_TYPE_INPUT);
    proof {
        assert(values@ =~= spec_readback_values());
    }
    let n = values.len();
    let mut i: usize = 0;
    while i < n
        invariant
            i <= n,
            n == values@.len(),
            values@ == spec_readback_values(),
            r@.len() == i,
            forall|k: int|
                0 <= k < i ==> spec_request_view(#[trigger] r@[k]) == (ControlRequestV {
                    request_type: HID_REQUEST_TYPE_CLASS_INTERFACE_IN,
                    request: HID_GET_REPORT,
                    value: spec_readback_values()[k],
                    index: interface as u16,
                    data: Seq::<u8>::empty(),
                    read_len: 64,
                    timeout_ms: 200,
                }),
        decreases n - i,
    {
        r.push(
            ControlRequest {
                request_type: HID_REQUEST_TYPE_CLASS_INTERFACE_IN,
                request: HID_GET_REPORT,
                value: values[i],
                index: interface as u16,
                data: Vec::new(),
                read_len: 64,
                timeout_ms: 200,
            },
        );
        i = i + 1;
    }
    r
}

} // verus!
