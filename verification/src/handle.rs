//! Ownership-tracked wrapping of native handles.
//!
//! A native handle is an opaque non-null address into SDK-managed memory. A
//! [`HandleGuard`] pairs such a handle with the one decision that governs its
//! whole life: whether this wrapper is responsible for releasing it. The
//! guard carries a ghost history of the lifecycle events it has gone
//! through, and the lemmas at the bottom prove the release discipline over
//! every well-formed history: a handle is released at most once, a borrowed
//! handle is never released, and after an ownership transfer no release
//! happens at all.

use vstd::prelude::*;

verus! {

/// An opaque, non-null address to SDK-internal memory. It is only ever
/// meaningful to native entry points; this layer never dereferences it.
#[derive(Clone, Copy, Debug, PartialEq, Eq, Hash, Structural)]
pub struct NativeHandle {
    addr: u64,
}

impl NativeHandle {
    /// The address this handle stands for.
    pub closed spec fn spec_addr(&self) -> u64 {
        self.addr
    }

    /// A handle is well-formed when its address is non-null.
    pub open spec fn wf(&self) -> bool {
        self.spec_addr() != 0
    }

    /// Wrap a raw address; a null address yields `None`.
    pub fn new(addr: u64) -> (r: Option<NativeHandle>)
        ensures
            addr == 0 ==> r is None,
            addr != 0 ==> (r matches Some(h) && h.spec_addr() == addr && h.wf()),
    {
        if addr == 0 {
            None
        } else {
            Some(NativeHandle { addr })
        }
    }

    /// The raw address, for handing back to a native entry point.
    pub fn addr(&self) -> (r: u64)
        ensures
            r == self.spec_addr(),
    {
        self.addr
    }
}

/// One event in the life of a [`HandleGuard`].
#[derive(Clone, Copy, Debug, PartialEq, Eq, Structural)]
pub enum HandleEvent {
    /// The guard was constructed owning its handle.
    AcquireOwned,
    /// The guard was constructed borrowing a handle owned elsewhere.
    AcquireBorrowed,
    /// Ownership was transferred out to a new owner.
    TransferOut,
    /// The guard was taken apart at the end of its life.
    Dispose,
}

/// A history is well-formed when it starts with exactly one acquisition,
/// continues with transfers, and ends with at most one final disposal.
pub open spec fn wf_history(h: Seq<HandleEvent>) -> bool {
    &&& h.len() >= 1
    &&& (h[0] == HandleEvent::AcquireOwned || h[0] == HandleEvent::AcquireBorrowed)
    &&& forall|i: int|
        1 <= i < h.len() ==> (#[trigger] h[i] == HandleEvent::TransferOut || h[i]
            == HandleEvent::Dispose)
    &&& forall|i: int| 0 <= i < h.len() - 1 ==> #[trigger] h[i] != HandleEvent::Dispose
}

/// Whether the guard still owns its handle after the events in `h`.
pub open spec fn owned_after(h: Seq<HandleEvent>) -> bool
    decreases h.len(),
{
    if h.len() == 0 {
        false
    } else if h.len() == 1 {
        h[0] == HandleEvent::AcquireOwned
    } else {
        owned_after(h.drop_last()) && h.last() != HandleEvent::TransferOut
    }
}

/// How many native releases the events in `h` cause: a disposal releases
/// exactly when the guard still owned its handle at that moment.
pub open spec fn release_count(h: Seq<HandleEvent>) -> nat
    decreases h.len(),
{
    if h.len() == 0 {
        0
    } else {
        release_count(h.drop_last()) + (if h.last() == HandleEvent::Dispose && owned_after(
            h.drop_last(),
        ) {
            1nat
        } else {
            0nat
        })
    }
}

/// A history that contains no disposal causes no release.
proof fn lemma_no_dispose_no_release(h: Seq<HandleEvent>)
    requires
        forall|i: int| 0 <= i < h.len() ==> #[trigger] h[i] != HandleEvent::Dispose,
    ensures
        release_count(h) == 0,
    decreases h.len(),
{
    if h.len() > 0 {
        lemma_no_dispose_no_release(h.drop_last());
    }
}

/// A guard that did not start out owning never comes to own.
proof fn lemma_not_acquired_owned_never_owned(h: Seq<HandleEvent>)
    requires
        h.len() >= 1,
        h[0] != HandleEvent::AcquireOwned,
    ensures
        !owned_after(h),
    decreases h.len(),
{
    if h.len() > 1 {
        lemma_not_acquired_owned_never_owned(h.drop_last());
    }
}

/// Once ownership has been transferred out, the guard never owns again.
proof fn lemma_transfer_ends_ownership(h: Seq<HandleEvent>)
    requires
        exists|i: int| 0 <= i < h.len() && h[i] == HandleEvent::TransferOut,
    ensures
        !owned_after(h),
    decreases h.len(),
{
    if h.len() > 0 {
        if h.last() != HandleEvent::TransferOut {
            let i = choose|i: int| 0 <= i < h.len() && h[i] == HandleEvent::TransferOut;
            assert(h.drop_last()[i] == HandleEvent::TransferOut);
            lemma_transfer_ends_ownership(h.drop_last());
        }
    }
}

/// No double release: any well-formed lifecycle of one guard causes at most
/// one native release of its handle.
pub proof fn lemma_release_at_most_once(h: Seq<HandleEvent>)
    requires
        wf_history(h),
    ensures
        release_count(h) <= 1,
{
    lemma_no_dispose_no_release(h.drop_last());
}

/// A guard constructed borrowing never releases its handle.
pub proof fn lemma_borrowed_never_released(h: Seq<HandleEvent>)
    requires
        wf_history(h),
        h[0] == HandleEvent::AcquireBorrowed,
    ensures
        release_count(h) == 0,
{
    lemma_no_dispose_no_release(h.drop_last());
    if h.len() > 1 {
        lemma_not_acquired_owned_never_owned(h.drop_last());
    }
}

/// After an ownership transfer, disposing the guard releases nothing.
pub proof fn lemma_transfer_out_disarms(h: Seq<HandleEvent>)
    requires
        wf_history(h),
        exists|i: int| 0 <= i < h.len() && h[i] == HandleEvent::TransferOut,
    ensures
        release_count(h) == 0,
{
    lemma_no_dispose_no_release(h.drop_last());
    if h.last() == HandleEvent::Dispose {
        let i = choose|i: int| 0 <= i < h.len() && h[i] == HandleEvent::TransferOut;
        assert(h.drop_last()[i] == HandleEvent::TransferOut);
        lemma_transfer_ends_ownership(h.drop_last());
    }
}

/// A native handle together with the decision whether this wrapper must
/// release it, and the ghost history of its lifecycle.
pub struct HandleGuard {
    handle: NativeHandle,
    owned: bool,
    history: Ghost<Seq<HandleEvent>>,
}

impl HandleGuard {
    /// The wrapped handle.
    pub closed spec fn spec_handle(&self) -> NativeHandle {
        self.handle
    }

    /// Whether this guard must release the handle at the end of its life.
    pub closed spec fn spec_owned(&self) -> bool {
        self.owned
    }

    /// The lifecycle events this guard has gone through.
    pub closed spec fn spec_history(&self) -> Seq<HandleEvent> {
        self.history@
    }

    /// A live guard's history is well-formed, contains no disposal yet, and
    /// agrees with its ownership flag.
    pub open spec fn wf(&self) -> bool {
        &&& self.spec_handle().wf()
        &&& wf_history(self.spec_history())
        &&& owned_after(self.spec_history()) == self.spec_owned()
        &&& forall|i: int|
            0 <= i < self.spec_history().len() ==> #[trigger] self.spec_history()[i]
                != HandleEvent::Dispose
    }

    /// Take ownership of `handle`: this guard becomes responsible for
    /// releasing it.
    pub fn own(handle: NativeHandle) -> (r: HandleGuard)
        requires
            handle.wf(),
        ensures
            r.wf(),
            r.spec_handle() == handle,
            r.spec_owned(),
            r.spec_history() == seq![HandleEvent::AcquireOwned],
    {
        let ghost hist: Seq<HandleEvent> = seq![HandleEvent::AcquireOwned];
        HandleGuard { handle, owned: true, history: Ghost(hist) }
    }

    /// Borrow `handle`: its release remains someone else's responsibility.
    pub fn borrow(handle: NativeHandle) -> (r: HandleGuard)
        requires
            handle.wf(),
        ensures
            r.wf(),
            r.spec_handle() == handle,
            !r.spec_owned(),
            r.spec_history() == seq![HandleEvent::AcquireBorrowed],
    {
        let ghost hist: Seq<HandleEvent> = seq![HandleEvent::AcquireBorrowed];
        HandleGuard { handle, owned: false, history: Ghost(hist) }
    }

    /// The wrapped handle, for passing to native entry points.
    pub fn handle(&self) -> (r: NativeHandle)
        ensures
            r == self.spec_handle(),
    {
        self.handle
    }

    /// Whether this guard must release the handle at the end of its life.
    pub fn is_owned(&self) -> (r: bool)
        ensures
            r == self.spec_owned(),
    {
        self.owned
    }

    /// Hand the bare handle to a new owner: this guard stops owning it, and
    /// disposing the guard afterwards releases nothing.
    pub fn transfer_out(&mut self) -> (r: NativeHandle)
        requires
            old(self).wf(),
        ensures
            final(self).wf(),
            r == old(self).spec_handle(),
            final(self).spec_handle() == old(self).spec_handle(),
            !final(self).spec_owned(),
            final(self).spec_history() == old(self).spec_history().push(
                HandleEvent::TransferOut,
            ),
    {
        proof {
            let h = self.history@.push(HandleEvent::TransferOut);
            assert(h.drop_last() =~= self.history@);
        }
        self.history = Ghost(self.history@.push(HandleEvent::TransferOut));
        self.owned = false;
        self.handle
    }

    /// End the guard's life: returns the handle the embedder must now
    /// release natively, or `None` when no release is due. This is the only
    /// event that can cause a release, and it consumes the guard.
    pub fn into_release(self) -> (r: Option<NativeHandle>)
        requires
            self.wf(),
        ensures
            self.spec_owned() ==> r == Some(self.spec_handle()),
            !self.spec_owned() ==> r is None,
            release_count(self.spec_history().push(HandleEvent::Dispose)) == (if self.spec_owned() {
                1nat
            } else {
                0nat
            }),
            release_count(self.spec_history()) == 0,
    {
        proof {
            let h = self.history@.push(HandleEvent::Dispose);
            assert(h.drop_last() =~= self.history@);
            lemma_no_dispose_no_release(self.history@);
        }
        if self.owned {
            Some(self.handle)
        } else {
            None
        }
    }
}

} // verus!
