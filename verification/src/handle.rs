//! The reference-counted opaque handle that carries a native callback
//! object through the managed runtime.
//!
//! When a proxy object is constructed on the managed side, ownership of the
//! boxed native implementor moves into a heap allocation whose address,
//! encoded as a 64-bit token, becomes the proxy's constructor argument.
//! Every inbound callback borrows that owner for the duration of the call:
//! it takes an additional reference and drops only that reference when the
//! call returns; the owner reference stays live.  The proxy's finalizer
//! performs the one permanent release, after which the token must never be
//! decoded again.
//!
//! [`CallbackHandle`] is the state such a handle moves through, and the
//! lifecycle law proves that under the discipline the managed runtime
//! guarantees — at most one finalize, serialized after all in-flight calls —
//! no access ever sees a destroyed implementor.

use vstd::prelude::*;

verus! {

/// Encodes an allocation's address as the integer token handed to the
/// managed side.  The token is a plain 64-bit value to the runtime.
pub fn encode_token(addr: u64) -> (t: i64)
    ensures
        t == addr as i64,
{
    #[verifier::truncate] (addr as i64)
}

/// Decodes a token back into the address it encodes.
pub fn decode_token(t: i64) -> (addr: u64)
    ensures
        addr == t as u64,
{
    #[verifier::truncate] (t as u64)
}

/// Encoding an address as a token and decoding it returns the address.
pub proof fn lemma_token_round_trip(addr: u64)
    ensures
        (addr as i64) as u64 == addr,
{
    assert((addr as i64) as u64 == addr) by (bit_vector);
}

/// The round trip also preserves 32-bit addresses, where pointers are
/// narrower than the token.
pub proof fn lemma_token_round_trip_32(addr: u32)
    ensures
        (addr as i64) as u32 == addr,
{
    assert((addr as i64) as u32 == addr) by (bit_vector);
}

/// One event in a handle's life, as the managed side drives it.
#[derive(Clone, Copy, Debug, PartialEq, Eq, Structural)]
pub enum HandleEvent {
    /// An inbound callback takes an additional reference for its duration.
    Borrow,
    /// A callback returns and drops the reference it took.
    Release,
    /// The proxy's finalizer consumes the owner reference permanently.
    Finalize,
}

/// What one event does to a handle in state (`borrows` outstanding
/// call-scoped references, `finalized` owner consumed).  `None` is a fault:
/// an access the discipline must rule out, because it would touch a
/// destroyed implementor or free one still in use.
pub open spec fn handle_step(borrows: int, finalized: bool, e: HandleEvent) -> Option<(int, bool)> {
    match e {
        HandleEvent::Borrow => if finalized {
            None
        } else {
            Some((borrows + 1, false))
        },
        HandleEvent::Release => if borrows >= 1 {
            Some((borrows - 1, finalized))
        } else {
            None
        },
        HandleEvent::Finalize => if finalized || borrows != 0 {
            None
        } else {
            Some((0int, true))
        },
    }
}

/// Runs a whole schedule of events against a fresh handle; `None` as soon
/// as any event faults.
pub open spec fn run_schedule(s: Seq<HandleEvent>) -> Option<(int, bool)>
    decreases s.len(),
{
    if s.len() == 0 {
        Some((0int, false))
    } else {
        match run_schedule(s.drop_last()) {
            None => None,
            Some((b, f)) => handle_step(b, f, s.last()),
        }
    }
}

/// How many events of the schedule are borrows.
pub open spec fn n_borrows(s: Seq<HandleEvent>) -> int
    decreases s.len(),
{
    if s.len() == 0 {
        0int
    } else {
        n_borrows(s.drop_last()) + (if s.last() is Borrow { 1int } else { 0int })
    }
}

/// How many events of the schedule are releases.
pub open spec fn n_releases(s: Seq<HandleEvent>) -> int
    decreases s.len(),
{
    if s.len() == 0 {
        0int
    } else {
        n_releases(s.drop_last()) + (if s.last() is Release { 1int } else { 0int })
    }
}

/// How many events of the schedule are finalizes.
pub open spec fn n_finalizes(s: Seq<HandleEvent>) -> int
    decreases s.len(),
{
    if s.len() == 0 {
        0int
    } else {
        n_finalizes(s.drop_last()) + (if s.last() is Finalize { 1int } else { 0int })
    }
}

/// The discipline the managed runtime guarantees for one proxy instance:
/// releases match earlier borrows, the finalizer runs at most once and only
/// as the last event, and only once every in-flight call has returned.
pub open spec fn admissible_schedule(s: Seq<HandleEvent>) -> bool {
    &&& forall|k: int| 0 <= k <= s.len() ==> n_releases(#[trigger] s.take(k)) <= n_borrows(s.take(k))
    &&& forall|k: int| 0 <= k < s.len() ==> n_finalizes(#[trigger] s.take(k)) == 0
    &&& (n_finalizes(s) >= 1 ==> n_releases(s.take(s.len() - 1)) == n_borrows(s.take(s.len() - 1)))
}

/// Handle lifecycle: under the runtime's discipline, any interleaving of
/// borrow/invoke/release with a single finalize runs without a fault — no
/// access ever happens after the finalize — the finalize is executed at most
/// once, and a schedule whose finalize has run leaves the handle consumed
/// with no reference outstanding.
pub proof fn lemma_handle_lifecycle(s: Seq<HandleEvent>)
    requires
        admissible_schedule(s),
    ensures
        run_schedule(s) is Some,
        n_finalizes(s) == 0 ==> run_schedule(s) == Some((n_borrows(s) - n_releases(s), false)),
        n_finalizes(s) >= 1 ==> run_schedule(s) == Some((0int, true)) && n_finalizes(s) == 1,
    decreases s.len(),
{
    if s.len() == 0 {
    } else {
        let t = s.drop_last();
        let x = s.last();
        assert(t =~= s.take(s.len() - 1));
        assert(admissible_schedule(t)) by {
            assert forall|k: int| 0 <= k <= t.len() implies n_releases(#[trigger] t.take(k))
                <= n_borrows(t.take(k)) by {
                assert(t.take(k) =~= s.take(k));
            }
            assert forall|k: int| 0 <= k < t.len() implies n_finalizes(#[trigger] t.take(k)) == 0 by {
                assert(t.take(k) =~= s.take(k));
            }
            if n_finalizes(t) >= 1 {
                assert(n_finalizes(s.take(s.len() - 1)) == 0);
            }
        }
        lemma_handle_lifecycle(t);
        assert(n_finalizes(t) == 0) by {
            assert(n_finalizes(s.take(s.len() - 1)) == 0);
        }
        if x is Finalize {
            assert(n_releases(t) == n_borrows(t));
        } else if x is Release {
            assert(n_releases(s.take(s.len() as int)) <= n_borrows(s.take(s.len() as int)));
            assert(s.take(s.len() as int) =~= s);
        }
    }
}

/// The state of one handle, as the glue layer mirrors it per proxy
/// instance: how many call-scoped references are outstanding, and whether
/// the finalizer has consumed the owner reference.
#[derive(Clone, Copy, Debug, PartialEq, Eq, Structural)]
pub struct CallbackHandle {
    /// Outstanding call-scoped references.
    pub borrows: u64,
    /// The owner reference has been consumed; the token is dead.
    pub finalized: bool,
}

impl CallbackHandle {
    /// A consumed handle has no outstanding call-scoped reference.
    pub open spec fn wf(self) -> bool {
        self.finalized ==> self.borrows == 0
    }

    /// Moves ownership of a native implementor behind a fresh token:
    /// the owner reference is live, no call is in flight.
    pub fn encode() -> (h: CallbackHandle)
        ensures
            h.wf(),
            h.borrows == 0,
            !h.finalized,
    {
        CallbackHandle { borrows: 0, finalized: false }
    }

    /// An inbound callback decodes the token and takes an additional
    /// reference for the duration of the call, leaving the owner reference
    /// intact for future calls.
    pub fn borrow_for_call(&mut self)
        requires
            old(self).wf(),
            !old(self).finalized,
            old(self).borrows < u64::MAX,
        ensures
            final(self).wf(),
            final(self).borrows == old(self).borrows + 1,
            !final(self).finalized,
    {
        self.borrows = self.borrows + 1;
    }

    /// The callback returns and the reference taken for it is dropped.
    pub fn release_after_call(&mut self)
        requires
            old(self).wf(),
            old(self).borrows >= 1,
        ensures
            final(self).wf(),
            final(self).borrows == old(self).borrows - 1,
            final(self).finalized == old(self).finalized,
    {
        self.borrows = self.borrows - 1;
    }

    /// The finalizer performs the one permanent release of the owner
    /// reference.  Afterwards the token must never be decoded again.
    pub fn consume_on_finalize(&mut self)
        requires
            old(self).wf(),
            !old(self).finalized,
            old(self).borrows == 0,
        ensures
            final(self).wf(),
            final(self).finalized,
            final(self).borrows == 0,
    {
        self.finalized = true;
    }

    /// Applies one event the way the entry points do, refusing any event
    /// the discipline rules out instead of faulting.  Returns whether the
    /// event was admissible in this state.
    pub fn apply(&mut self, e: HandleEvent) -> (ok: bool)
        requires
            old(self).wf(),
            old(self).borrows < u64::MAX,
        ensures
            final(self).wf(),
            ok == (handle_step(old(self).borrows as int, old(self).finalized, e) is Some),
            ok ==> handle_step(old(self).borrows as int, old(self).finalized, e)
                == Some((final(self).borrows as int, final(self).finalized)),
            !ok ==> *final(self) == *old(self),
    {
        match e {
            HandleEvent::Borrow => {
                if self.finalized {
                    false
                } else {
                    self.borrow_for_call();
                    true
                }
            },
            HandleEvent::Release => {
                if self.borrows >= 1 {
                    self.release_after_call();
                    true
                } else {
                    false
                }
            },
            HandleEvent::Finalize => {
                if self.finalized || self.borrows != 0 {
                    false
                } else {
                    self.consume_on_finalize();
                    true
                }
            },
        }
    }
}

} // verus!
