//! Transfer plans: one logical transaction as one or two physical segments.

use vstd::prelude::*;

verus! {

/// One physical transfer unit within a logical transaction.
///
/// `rx_capacity` is how many bytes the segment captures; a full-duplex
/// segment always captures exactly as many bytes as it transmits.
/// `select_change` says whether the chip-select line is released at the
/// end of the segment; while it stays false, the line stays asserted
/// into the next segment.
#[derive(Debug)]
pub struct Segment {
    pub tx: Vec<u8>,
    pub rx_capacity: usize,
    pub speed_hz: u32,
    pub select_change: bool,
    pub delay_after_us: u16,
}

impl Segment {
    /// A segment captures exactly as many bytes as it transmits.
    pub open spec fn wf(self) -> bool {
        self.rx_capacity == self.tx@.len()
    }
}

/// One logical transaction: an ordered sequence of one or two segments,
/// executed by the driver as a single operation.
#[derive(Debug)]
pub struct TransferPlan {
    pub segments: Vec<Segment>,
}

impl TransferPlan {
    /// One or two segments, each capturing as much as it transmits.
    pub open spec fn wf(self) -> bool {
        &&& 1 <= self.segments@.len() <= 2
        &&& forall|i: int| 0 <= i < self.segments@.len() ==> (#[trigger] self.segments@[i]).wf()
    }
}

/// Build the plan for one transaction.
///
/// Without a pre-delay, the whole payload moves in a single segment that
/// releases chip-select when it ends. With a pre-delay, a first segment
/// transmits nothing, waits the requested time, and keeps chip-select
/// asserted (`select_change` false), so the line stays active across the
/// delay and into the payload segment that follows; both segments carry
/// the requested speed. An empty payload still yields a plan, so a
/// transaction that exchanges nothing (or only pulses chip-select) is
/// executed rather than skipped.
pub fn build_plan(payload: Vec<u8>, speed_hz: u32, pre_delay: Option<u16>) -> (plan: TransferPlan)
    ensures
        plan.wf(),
        plan.segments@.last().tx@ == payload@,
        plan.segments@.last().rx_capacity == payload@.len(),
        pre_delay is None ==> {
            &&& plan.segments@.len() == 1
            &&& plan.segments@[0].tx@ == payload@
            &&& plan.segments@[0].speed_hz == speed_hz
            &&& plan.segments@[0].select_change
            &&& plan.segments@[0].delay_after_us == 0
        },
        pre_delay matches Some(d) ==> {
            &&& plan.segments@.len() == 2
            &&& plan.segments@[0].tx@.len() == 0
            &&& plan.segments@[0].speed_hz == speed_hz
            &&& !plan.segments@[0].select_change
            &&& plan.segments@[0].delay_after_us == d
            &&& plan.segments@[1].tx@ == payload@
            &&& plan.segments@[1].speed_hz == speed_hz
            &&& plan.segments@[1].select_change
            &&& plan.segments@[1].delay_after_us == 0
        },
{
    let payload_len = payload.len();
    let mut segments: Vec<Segment> = Vec::new();
    if let Some(d) = pre_delay {
        segments.push(Segment {
            tx: Vec::new(),
            rx_capacity: 0,
            speed_hz,
            select_change: false,
            delay_after_us: d,
        });
    }
    segments.push(Segment {
        tx: payload,
        rx_capacity: payload_len,
        speed_hz,
        select_change: true,
        delay_after_us: 0,
    });
    TransferPlan { segments }
}

/// A zeroed capture buffer of the payload's length, ready to be filled
/// in place by one full-duplex transfer.
pub fn prepare_capture_buffer(payload_len: usize) -> (buf: Vec<u8>)
    ensures
        buf@.len() == payload_len,
        forall|i: int| 0 <= i < payload_len ==> buf@[i] == 0u8,
{
    let mut buf: Vec<u8> = Vec::new();
    let mut i: usize = 0;
    while i < payload_len
        invariant
            i <= payload_len,
            buf@.len() == i,
            forall|j: int| 0 <= j < i ==> buf@[j] == 0u8,
        decreases payload_len - i,
    {
        buf.push(0u8);
        i = i + 1;
    }
    buf
}

/// The capture of one executed transaction: as many bytes as the payload
/// that was transmitted.
#[derive(Debug)]
pub struct TransactionResult {
    pub capture: Vec<u8>,
}

impl TransactionResult {
    /// The capture is exactly as long as the transmitted payload.
    pub open spec fn matches_payload_len(self, payload_len: int) -> bool {
        self.capture@.len() == payload_len
    }

    /// Accept a capture buffer as the result of a transaction that
    /// transmitted `payload_len` bytes; refuse one of any other length.
    pub fn from_capture(capture: Vec<u8>, payload_len: usize) -> (r: Option<TransactionResult>)
        ensures
            r is Some <==> capture@.len() == payload_len,
            r matches Some(t) ==> t.capture@ == capture@ && t.matches_payload_len(payload_len as int),
    {
        if capture.len() == payload_len {
            Some(TransactionResult { capture })
        } else {
            None
        }
    }

    /// Render this transaction's capture in the given format.
    pub fn formatted(&self, fmt: crate::format::OutputFormat) -> (out: Vec<u8>)
        ensures
            out@ == crate::format::rendered_output(self.capture@, fmt),
    {
        crate::format::format_capture(&self.capture, fmt)
    }
}

} // verus!
