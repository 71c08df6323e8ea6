//! The device discovery sequencer.
//!
//! Discovery first yields every already-connected device, eagerly
//! enumerated at the call site, and only then devices carried by live
//! advertising events.  The scan — with its proxy registration and channel
//! capacity — must not be started until the connected enumeration has been
//! fully consumed, so the sequencer stays in its connected phase until the
//! first pull past the connected set, and only that pull starts the scan.
//!
//! The glue layer drives the sequencer pull by pull: on
//! [`DiscoverPoll::Yield`] it hands the device to the consumer, on
//! [`DiscoverPoll::StartScan`] it issues the start-scan request, and on
//! [`DiscoverPoll::AwaitEvent`] it awaits the scan stream's next event and
//! feeds it through [`DiscoverSequencer::accept_event`].

use vstd::prelude::*;
use crate::events::AdvertisingEvent;
use crate::ids::DeviceId;

verus! {

/// What the next pull of the discovery stream must do.
#[derive(Clone, Debug, PartialEq, Eq)]
pub enum DiscoverPoll {
    /// Yield this already-connected device.
    Yield(DeviceId),
    /// The connected devices are exhausted: issue the start-scan request
    /// now, then await the stream.
    StartScan,
    /// The scan runs: await the next advertising event.
    AwaitEvent,
}

/// The sequencer's state: the connected devices still to yield, and
/// whether the scan has been started.
pub struct DiscoverSequencer {
    /// The eagerly enumerated connected devices, in enumeration order.
    pub connected: Vec<DeviceId>,
    /// How many connected devices have been yielded.
    pub next: usize,
    /// The scan has been started.
    pub scanning: bool,
}

impl DiscoverSequencer {
    /// The yield position stays within the list, and scanning begins only
    /// once the list is exhausted.
    pub open spec fn wf(self) -> bool {
        self.next <= self.connected@.len() && (self.scanning ==> self.next == self.connected@.len())
    }

    /// A sequencer over a fresh enumeration: nothing yielded, scan not
    /// started.
    pub fn new(connected: Vec<DeviceId>) -> (s: DiscoverSequencer)
        ensures
            s.wf(),
            s.connected@ == connected@,
            s.next == 0,
            !s.scanning,
    {
        DiscoverSequencer { connected, next: 0, scanning: false }
    }

    /// One pull of the discovery stream: yields the next connected device
    /// while any remain; the first pull past them — and only that pull —
    /// starts the scan; afterwards every pull awaits the stream.
    pub fn poll(&mut self) -> (r: DiscoverPoll)
        requires
            old(self).wf(),
        ensures
            final(self).wf(),
            final(self).connected@ == old(self).connected@,
            old(self).next < old(self).connected@.len() ==> (r matches DiscoverPoll::Yield(d)
                && d == old(self).connected@[old(self).next as int]
                && final(self).next == old(self).next + 1
                && final(self).scanning == old(self).scanning),
            old(self).next == old(self).connected@.len() && !old(self).scanning ==> r
                == DiscoverPoll::StartScan && final(self).scanning
                && final(self).next == old(self).next,
            old(self).scanning ==> r == DiscoverPoll::AwaitEvent
                && final(self).next == old(self).next
                && final(self).scanning == old(self).scanning,
    {
        if self.next < self.connected.len() {
            let d = self.connected[self.next].clone();
            self.next = self.next + 1;
            DiscoverPoll::Yield(d)
        } else if !self.scanning {
            self.scanning = true;
            DiscoverPoll::StartScan
        } else {
            DiscoverPoll::AwaitEvent
        }
    }

    /// Extracts the device an advertising event carries, the scan phase's
    /// contribution to the discovery stream.
    pub fn accept_event(&self, event: &AdvertisingEvent) -> (d: DeviceId)
        requires
            self.scanning,
        ensures
            d == event.device,
    {
        event.device.clone()
    }
}

/// The sequencer's state and history after `k` pulls over a given
/// enumeration: the yield position, whether the scan has been started, the
/// devices yielded so far, and how many start-scan requests were issued.
pub open spec fn run_polls(connected: Seq<DeviceId>, k: nat) -> (int, bool, Seq<DeviceId>, int)
    decreases k,
{
    if k == 0 {
        (0int, false, Seq::empty(), 0int)
    } else {
        let (n, scanning, yielded, starts) = run_polls(connected, (k - 1) as nat);
        if n < connected.len() {
            (n + 1, scanning, yielded.push(connected[n]), starts)
        } else if !scanning {
            (n, true, yielded, starts + 1)
        } else {
            (n, scanning, yielded, starts)
        }
    }
}

/// Sequencing: the first pulls yield exactly the connected devices, in
/// enumeration order, with no start-scan request issued before the last of
/// them; any pull beyond them has yielded the whole enumeration first and
/// issued exactly one start-scan request.
pub proof fn lemma_discover_sequencing(connected: Seq<DeviceId>, k: nat)
    ensures
        k <= connected.len() ==> run_polls(connected, k) == (
            k as int,
            false,
            connected.take(k as int),
            0int,
        ),
        k > connected.len() ==> run_polls(connected, k) == (
            connected.len() as int,
            true,
            connected,
            1int,
        ),
    decreases k,
{
    if k == 0 {
        assert(connected.take(0) =~= Seq::<DeviceId>::empty());
    } else {
        lemma_discover_sequencing(connected, (k - 1) as nat);
        if k <= connected.len() {
            assert(connected.take(k as int) =~= connected.take(k as int - 1).push(
                connected[k as int - 1],
            ));
        } else if k == connected.len() + 1 {
            assert(connected.take(connected.len() as int) =~= connected);
        }
    }
}

} // verus!
