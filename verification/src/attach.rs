//! Thread attachment to the virtual machine.
//!
//! Before calling into the managed runtime, the calling thread must hold an
//! execution context.  A thread may already be attached by its creator (a
//! runtime-owned callback thread), or may need attaching here, in which case
//! this layer owns the attachment and must detach the thread exactly once:
//! normally through a thread-local finalizer when the thread ends, or
//! immediately after the scoped call when the finalizer has already run
//! (the scope was entered while the thread is being torn down).
//!
//! The glue layer probes the runtime, follows the [`AttachPlan`] computed
//! here, and records the per-thread state in an [`AttachState`].

use vstd::prelude::*;

verus! {

/// What probing the runtime for the current thread's execution context said.
#[derive(Clone, Copy, Debug, PartialEq, Eq, Structural)]
pub enum EnvProbe {
    /// The thread already holds a context: it was attached by its creator,
    /// or this layer attached it earlier and still owns the attachment.
    Attached,
    /// The thread holds no context and must be attached first.
    Detached,
}

/// The actions a scoped call must take around running its body.
#[derive(Clone, Copy, Debug, PartialEq, Eq, Structural)]
pub struct AttachPlan {
    /// Attach the thread before running the body.
    pub attach: bool,
    /// After attaching, record this layer as the attachment's owner, so the
    /// thread-local finalizer detaches it when the thread ends.
    pub register_owner: bool,
    /// Detach immediately after the body returns, because the thread-local
    /// finalizer has already run and will not fire again.
    pub detach_after: bool,
}

/// Decides what a scoped call must do for the current thread.
///
/// A thread attached by someone else is never touched.  A thread attached
/// here has its detachment responsibility placed in exactly one place:
/// the thread-local finalizer, or, when that finalizer has already run
/// (`thread_exiting`), an immediate detach after the body.
pub fn plan_with_env(probe: EnvProbe, thread_exiting: bool) -> (p: AttachPlan)
    ensures
        p.attach == (probe is Detached),
        p.register_owner == (probe is Detached && !thread_exiting),
        p.detach_after == (probe is Detached && thread_exiting),
        // an attachment's release is owed to exactly one place
        p.attach ==> (p.register_owner != p.detach_after),
        // a foreign or existing attachment is left alone
        probe is Attached ==> p == (AttachPlan { attach: false, register_owner: false, detach_after: false }),
{
    match probe {
        EnvProbe::Attached => AttachPlan { attach: false, register_owner: false, detach_after: false },
        EnvProbe::Detached => AttachPlan {
            attach: true,
            register_owner: !thread_exiting,
            detach_after: thread_exiting,
        },
    }
}

/// Decides what the thread-local finalizer does when the thread ends:
/// detach exactly when this layer owns the thread's attachment.
pub fn plan_thread_exit(owns_attachment: bool) -> (detach: bool)
    ensures
        detach == owns_attachment,
{
    owns_attachment
}

/// The attachment history of one thread, as the glue layer tracks it.
pub struct AttachState {
    /// The thread currently holds an execution context.
    pub attached: bool,
    /// This layer performed the attachment and owes the detach.
    pub owned: bool,
    /// The thread-local finalizer has run: the thread is ending.
    pub exiting: bool,
    /// How many times this layer attached the thread.
    pub attaches: Ghost<int>,
    /// How many times this layer detached the thread.
    pub detaches: Ghost<int>,
}

impl AttachState {
    /// The bookkeeping a thread's state always satisfies: every attachment
    /// this layer performed has been detached, except the one it still owns.
    pub open spec fn wf(self) -> bool {
        &&& self.attaches@ == self.detaches@ + (if self.owned { 1int } else { 0int })
        &&& self.owned ==> self.attached
        &&& self.exiting ==> !self.owned
    }

    /// A thread as first seen: attached by its creator or not, with no
    /// attachment performed here yet.
    pub fn new(foreign_attached: bool) -> (s: AttachState)
        ensures
            s.wf(),
            s.attached == foreign_attached,
            !s.owned,
            !s.exiting,
            s.attaches@ == 0,
            s.detaches@ == 0,
    {
        AttachState {
            attached: foreign_attached,
            owned: false,
            exiting: false,
            attaches: Ghost(0),
            detaches: Ghost(0),
        }
    }

    /// Runs one scoped call on this thread: probes, follows the plan, and
    /// performs the attach and the after-body detach the plan calls for.
    ///
    /// The thread is never left half-attached: afterwards it is attached
    /// unless the plan detached it again because the thread is ending, and a
    /// foreign attachment is never released.
    pub fn run_scope(&mut self) -> (p: AttachPlan)
        requires
            old(self).wf(),
        ensures
            final(self).wf(),
            p == (AttachPlan {
                attach: !old(self).attached,
                register_owner: !old(self).attached && !old(self).exiting,
                detach_after: !old(self).attached && old(self).exiting,
            }),
            final(self).exiting == old(self).exiting,
            // not exiting: the thread ends up attached, owned here when newly attached
            !old(self).exiting ==> final(self).attached
                && final(self).owned == (old(self).owned || !old(self).attached),
            // exiting: a fresh attachment is released at once, nothing stays owned
            old(self).exiting && !old(self).attached ==> !final(self).attached && !final(self).owned,
            old(self).attached ==> final(self).attached == old(self).attached
                && final(self).owned == old(self).owned,
            final(self).attaches@ == old(self).attaches@ + (if p.attach { 1int } else { 0int }),
            final(self).detaches@ == old(self).detaches@ + (if p.detach_after { 1int } else { 0int }),
    {
        let probe = if self.attached { EnvProbe::Attached } else { EnvProbe::Detached };
        let p = plan_with_env(probe, self.exiting);
        if p.attach {
            self.attached = true;
            proof {
                self.attaches@ = self.attaches@ + 1;
            }
        }
        if p.register_owner {
            self.owned = true;
        }
        // ... the scoped body runs here, against a valid context ...
        if p.detach_after {
            self.attached = false;
            proof {
                self.detaches@ = self.detaches@ + 1;
            }
        }
        p
    }

    /// The thread ends: the thread-local finalizer detaches the thread if
    /// this layer owns the attachment, and marks the thread as exiting so a
    /// later scope on the dying thread cleans up after itself.
    pub fn thread_exit(&mut self)
        requires
            old(self).wf(),
        ensures
            final(self).wf(),
            final(self).exiting,
            !final(self).owned,
            final(self).attached == (old(self).attached && !old(self).owned),
            final(self).attaches@ == old(self).attaches@,
            final(self).detaches@ == old(self).detaches@ + (if old(self).owned { 1int } else { 0int }),
            // everything this layer attached has now been detached
            final(self).attaches@ == final(self).detaches@,
    {
        let detach = plan_thread_exit(self.owned);
        if detach {
            self.attached = false;
            self.owned = false;
            proof {
                self.detaches@ = self.detaches@ + 1;
            }
        }
        self.exiting = true;
    }
}

/// Attachments balance: once a thread no longer owns an attachment, every
/// attach this layer performed on it has been matched by exactly one detach.
pub proof fn lemma_attach_balance(s: AttachState)
    requires
        s.wf(),
        !s.owned,
    ensures
        s.attaches@ == s.detaches@,
{
}

} // verus!
