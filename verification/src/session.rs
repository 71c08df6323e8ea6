//! One scan session: a started scan tied to one callback trampoline and one
//! receiving end of a bounded event channel.
//!
//! The trampoline's scan-result callback decodes each event and pushes it
//! into the channel, blocking the callback thread when the channel is full.
//! The stop-scan request is tied to the stream's lifetime: it is issued
//! exactly once when the stream is abandoned, whether it was never polled,
//! partially consumed, or fully drained.  An asynchronous scan-failure
//! callback is only reported as a diagnostic by the glue layer; it does not
//! terminate the stream.

use vstd::prelude::*;
use crate::channel::{
    channel_close, channel_recv_blocking, channel_send_blocking, channel_try_recv,
    new_bounded_channel, RecvOutcome,
};
use crate::decode::{decode_scan_result, spec_malformed, spec_missing_field, DecodeError,
    RawScanResult};
use crate::events::AdvertisingEvent;

verus! {

/// The event channel's fixed capacity: small, so that a slow consumer
/// blocks the runtime's callback threads instead of buffering without
/// limit.
pub const SCAN_CHANNEL_CAPACITY: usize = 16;

/// The scan-mode setting passed with the start-scan request: the runtime's
/// lowest-latency mode.
pub const SCAN_MODE_LOW_LATENCY: i32 = 2;

/// What became of one scan callback.
#[derive(Clone, Copy, Debug, PartialEq, Eq)]
pub enum DeliverOutcome {
    /// The event was decoded and handed to the channel.
    Delivered,
    /// The event was malformed; it was dropped and the stream goes on.
    DroppedMalformed(DecodeError),
    /// The stream was abandoned and the channel closed; the event was
    /// discarded.
    StreamGone,
}

/// The producing half of a session: what the scan trampoline holds.
pub struct ScanProducer {
    sender: async_channel::Sender<AdvertisingEvent>,
}

/// The consuming half of a session: the event stream handed to the caller,
/// with the stop-scan obligation that its abandonment discharges.
pub struct ScanStream {
    /// The channel's receiving endpoint.
    pub receiver: async_channel::Receiver<AdvertisingEvent>,
    /// The stop-scan request has been issued for this session.
    pub stopped: bool,
    /// How many stop-scan requests this session has issued.
    pub stops: Ghost<int>,
}

/// Creates the two halves of a fresh session around a bounded channel of
/// capacity [`SCAN_CHANNEL_CAPACITY`].  The caller issues the start-scan
/// request with the trampoline that holds the producer, and owes the one
/// stop-scan request to the stream.
pub fn new_scan_session() -> (halves: (ScanProducer, ScanStream))
    ensures
        halves.1.wf(),
        !halves.1.stopped,
        halves.1.stops@ == 0,
{
    let (sender, receiver) = new_bounded_channel(SCAN_CHANNEL_CAPACITY);
    (ScanProducer { sender }, ScanStream { receiver, stopped: false, stops: Ghost(0) })
}

impl ScanProducer {
    /// One scan-result callback: decodes the raw arguments and sends the
    /// event into the channel, waiting — backpressure — while the channel
    /// is full.  A malformed event is dropped and reported, and never ends
    /// the session; a well-formed one is delivered unless the stream was
    /// abandoned meanwhile.
    pub fn on_scan_result(&self, raw: RawScanResult) -> (r: DeliverOutcome)
        ensures
            spec_malformed(raw) <==> r matches DeliverOutcome::DroppedMalformed(_),
            spec_malformed(raw) ==> r == DeliverOutcome::DroppedMalformed(spec_missing_field(raw)),
            !spec_malformed(raw) ==> (r == DeliverOutcome::Delivered || r
                == DeliverOutcome::StreamGone),
    {
        match decode_scan_result(raw) {
            Err(e) => DeliverOutcome::DroppedMalformed(e),
            Ok(event) => match channel_send_blocking(&self.sender, event) {
                Ok(()) => DeliverOutcome::Delivered,
                Err(_) => DeliverOutcome::StreamGone,
            },
        }
    }
}

impl ScanStream {
    /// The session has issued its stop-scan request exactly as often as its
    /// stream has been torn down: once afterwards, never before.
    pub open spec fn wf(self) -> bool {
        self.stops@ == (if self.stopped { 1int } else { 0int })
    }

    /// Waits for the next event.  Consuming never touches the stop-scan
    /// obligation.  `None` means the session is gone: the channel is closed
    /// and drained.
    pub fn next_event(&mut self) -> (r: Option<AdvertisingEvent>)
        requires
            old(self).wf(),
        ensures
            final(self).wf(),
            final(self).stopped == old(self).stopped,
            final(self).stops@ == old(self).stops@,
    {
        channel_recv_blocking(&self.receiver)
    }

    /// Asks for an already-delivered event without waiting; the stop-scan
    /// obligation is untouched.
    pub fn poll_event(&mut self) -> (r: RecvOutcome<AdvertisingEvent>)
        requires
            old(self).wf(),
        ensures
            final(self).wf(),
            final(self).stopped == old(self).stopped,
            final(self).stops@ == old(self).stops@,
    {
        channel_try_recv(&self.receiver)
    }

    /// Discharges the stream's teardown: called when the stream is
    /// abandoned, however little or much of it was consumed.  Returns
    /// whether the caller must issue the stop-scan request now — true the
    /// first time, never again — and closes the channel so producers stop.
    pub fn finish(&mut self) -> (issue_stop: bool)
        requires
            old(self).wf(),
        ensures
            final(self).wf(),
            final(self).stopped,
            issue_stop == !old(self).stopped,
            final(self).stops@ == old(self).stops@ + (if issue_stop { 1int } else { 0int }),
    {
        if self.stopped {
            false
        } else {
            let _ = channel_close(&self.receiver);
            self.stopped = true;
            proof {
                self.stops@ = self.stops@ + 1;
            }
            true
        }
    }
}

/// One step in a stream's observable life.
#[derive(Clone, Copy, Debug, PartialEq, Eq, Structural)]
pub enum StreamEvent {
    /// The consumer pulled (or tried to pull) an event.
    Consume,
    /// The stream was abandoned.
    Teardown,
}

/// The stop-scan requests issued after a sequence of stream events, from a
/// fresh session: consuming issues none, and only the first teardown issues
/// one.
pub open spec fn stops_after(s: Seq<StreamEvent>) -> int
    decreases s.len(),
{
    if s.len() == 0 {
        0int
    } else if s.last() is Teardown && stops_after(s.drop_last()) == 0 {
        1int
    } else {
        stops_after(s.drop_last())
    }
}

/// Whether any teardown occurs in the sequence.
pub open spec fn has_teardown(s: Seq<StreamEvent>) -> bool {
    exists|i: int| 0 <= i < s.len() && s[i] is Teardown
}

/// Cleanup-on-drop: whatever was consumed first — nothing, one event, or
/// everything — a torn-down stream has issued exactly one stop-scan
/// request, and a stream still live has issued none.
pub proof fn lemma_teardown_once(s: Seq<StreamEvent>)
    ensures
        stops_after(s) == (if has_teardown(s) { 1int } else { 0int }),
    decreases s.len(),
{
    if s.len() > 0 {
        lemma_teardown_once(s.drop_last());
        if has_teardown(s.drop_last()) {
            assert(has_teardown(s)) by {
                let i = choose|i: int|
                    0 <= i < s.drop_last().len() && s.drop_last()[i] is Teardown;
                assert(s[i] is Teardown);
            }
        } else if s.last() is Teardown {
            assert(s[s.len() - 1] is Teardown);
        } else {
            if has_teardown(s) {
                let i = choose|i: int| 0 <= i < s.len() && s[i] is Teardown;
                assert(s.drop_last()[i] is Teardown);
            }
        }
    }
}

} // verus!
