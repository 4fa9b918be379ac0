use vstd::prelude::*;
use vstd::rwlock::{RwLock, RwLockPredicate};
use crate::events::{supports, EventKind, ResourceKind, SubscriptionSet};

verus! {

/// Why a handle could not hand out its native object.
#[derive(Debug, Clone, Copy, PartialEq, Eq, Structural)]
pub enum ResourceError {
    /// The handle has been disposed.
    Terminated,
}

/// One operation on a disposable slot.
pub enum SlotOp {
    Acquire,
    Dispose,
}

/// The slot's contents after one operation: only disposal changes it.
pub open spec fn slot_step<T>(s: Option<T>, op: SlotOp) -> Option<T> {
    match op {
        SlotOp::Acquire => s,
        SlotOp::Dispose => None,
    }
}

/// The slot's contents after a sequence of operations, applied in order.
pub open spec fn slot_run<T>(s: Option<T>, ops: Seq<SlotOp>) -> Option<T>
    decreases ops.len(),
{
    if ops.len() == 0 {
        s
    } else {
        slot_run(slot_step(s, ops[0]), ops.drop_first())
    }
}

/// What `acquire` answers on a slot with the given contents.
pub open spec fn acquire_outcome<T>(s: Option<T>) -> Result<T, ResourceError> {
    match s {
        Some(v) => Ok(v),
        None => Err(ResourceError::Terminated),
    }
}

/// The slot that holds a native handle until it is disposed.
pub struct Slot<T> {
    value: Option<T>,
}

impl<T> View for Slot<T> {
    type V = Option<T>;

    closed spec fn view(&self) -> Option<T> {
        self.value
    }
}

impl<T: Clone> Slot<T> {
    /// A full slot holding `native`.
    pub fn wrap(native: T) -> (s: Self)
        ensures
            s@ == Some(native),
    {
        Slot { value: Some(native) }
    }

    /// A clone of the held handle, or `Terminated` once the slot is empty.
    pub fn acquire(&self) -> (r: Result<T, ResourceError>)
        ensures
            acquire_outcome(self@) is Err ==> r == acquire_outcome(self@),
            acquire_outcome(self@) is Ok ==> r is Ok && cloned(acquire_outcome(self@)->Ok_0, r->Ok_0),
    {
        match &self.value {
            Some(v) => Ok(v.clone()),
            None => Err(ResourceError::Terminated),
        }
    }

    /// Empties the slot; an empty slot stays empty.
    pub fn dispose(&mut self)
        ensures
            final(self)@ == slot_step(old(self)@, SlotOp::Dispose),
            final(self)@ is None,
    {
        self.value = None;
    }

    pub fn is_disposed(&self) -> (r: bool)
        ensures
            r == (self@ is None),
    {
        self.value.is_none()
    }
}

/// Disposal is monotonic: once a slot is empty, no sequence of later
/// acquires and disposals makes it full again, and every acquire on it
/// answers `Terminated`.
pub proof fn lemma_disposal_monotonic<T>(ops: Seq<SlotOp>)
    ensures
        slot_run(None::<T>, ops) == None::<T>,
        forall|k: int|
            0 <= k <= ops.len() ==> acquire_outcome(#[trigger] slot_run(None::<T>, ops.take(k)))
                == Err::<T, ResourceError>(ResourceError::Terminated),
    decreases ops.len(),
{
    if ops.len() > 0 {
        lemma_disposal_monotonic::<T>(ops.drop_first());
    }
    assert forall|k: int| 0 <= k <= ops.len() implies slot_run(None::<T>, #[trigger] ops.take(k))
        == None::<T> by {
        lemma_empty_stays_empty::<T>(ops.take(k));
    }
}

proof fn lemma_empty_stays_empty<T>(ops: Seq<SlotOp>)
    ensures
        slot_run(None::<T>, ops) == None::<T>,
    decreases ops.len(),
{
    if ops.len() > 0 {
        lemma_empty_stays_empty::<T>(ops.drop_first());
    }
}

/// Disposing any positive number of times leaves the slot exactly as
/// disposing once does.
pub proof fn lemma_dispose_idempotent<T>(s: Option<T>, n: nat)
    requires
        n >= 1,
    ensures
        slot_run(s, Seq::new(n, |i: int| SlotOp::Dispose)) == slot_step(s, SlotOp::Dispose),
    decreases n,
{
    let ops = Seq::new(n, |i: int| SlotOp::Dispose);
    let rest = Seq::new((n - 1) as nat, |i: int| SlotOp::Dispose);
    assert(ops.drop_first() =~= rest);
    assert(slot_step(s, ops[0]) == None::<T>);
    assert(slot_run(s, ops) == slot_run(None::<T>, rest));
    if n > 1 {
        lemma_dispose_idempotent::<T>(None, (n - 1) as nat);
    }
}

/// A handle acquired before disposal is the live native object, and the
/// disposal that follows does not take it back: disposal only stops new
/// acquisitions.
pub proof fn lemma_acquired_survives_dispose<T>(native: T, later: Seq<SlotOp>)
    ensures
        acquire_outcome(Some(native)) == Ok::<T, ResourceError>(native),
        slot_run(slot_step(Some(native), SlotOp::Dispose), later) == None::<T>,
{
    lemma_empty_stays_empty::<T>(later);
}

/// What the slot's lock admits: the slot holds the wrapped handle, or nothing.
pub struct HoldsOnly<T> {
    pub native: T,
}

impl<T> RwLockPredicate<Slot<T>> for HoldsOnly<T> {
    open spec fn inv(self, s: Slot<T>) -> bool {
        s@ == None::<T> || s@ == Some(self.native)
    }
}

/// What the subscription lock admits: a set that holds no kind twice.
pub struct NoRepeats;

impl RwLockPredicate<SubscriptionSet> for NoRepeats {
    open spec fn inv(self, s: SubscriptionSet) -> bool {
        s.wf()
    }
}

/// A native handle that many callers share and any one of them may dispose.
pub struct DisposableResourceWrapper<T> {
    slot: RwLock<Slot<T>, HoldsOnly<T>>,
    subscriptions: RwLock<SubscriptionSet, NoRepeats>,
}

impl<T: Clone> DisposableResourceWrapper<T> {
    /// The native object this handle was created with.
    pub closed spec fn native(&self) -> T {
        self.slot.pred().native
    }

    pub fn new(value: T) -> (w: Self)
        ensures
            w.native() == value,
    {
        let slot = Slot::wrap(value);
        DisposableResourceWrapper {
            slot: RwLock::new(slot, Ghost(HoldsOnly { native: value })),
            subscriptions: RwLock::new(SubscriptionSet::new(), Ghost(NoRepeats)),
        }
    }

    /// Disposes the handle: acquisitions that start after this returns fail.
    pub fn close(&self) {
        let (mut slot, handle) = self.slot.acquire_write();
        slot.dispose();
        handle.release_write(slot);
    }

    /// A clone of the native object, or `None` once the handle is disposed.
    fn read(&self) -> (r: Option<T>)
        ensures
            r is Some ==> cloned(self.native(), r->Some_0),
    {
        let guard = self.slot.acquire_read();
        let r = match guard.borrow().acquire() {
            Ok(v) => Some(v),
            Err(_) => None,
        };
        guard.release_read();
        r
    }

    /// A clone of the native object for one operation, or `Terminated`
    /// once the handle is disposed.
    pub fn get_resource(&self) -> (r: Result<T, ResourceError>)
        ensures
            r is Ok ==> cloned(self.native(), r->Ok_0),
            r is Err ==> r == Err::<T, ResourceError>(ResourceError::Terminated),
    {
        match self.read() {
            Some(v) => Ok(v),
            None => Err(ResourceError::Terminated),
        }
    }

    /// Acquires the native object for a subscription call on an object of
    /// kind `r`, and records the requested kinds under the subscription lock.
    /// Returns the object with the kinds whose native callback must be
    /// attached now: each once, each requested and offered, none attached by
    /// an earlier call. Once the handle is disposed it answers `Terminated`
    /// and records nothing.
    pub fn subscribe(&self, r: ResourceKind, requested: &Vec<EventKind>) -> (res: Result<
        (T, Vec<EventKind>),
        ResourceError,
    >)
        ensures
            res is Ok ==> cloned(self.native(), res->Ok_0.0),
            res is Ok ==> res->Ok_0.1@.no_duplicates(),
            res is Ok ==> forall|k: EventKind| #[trigger]
                res->Ok_0.1@.contains(k) ==> requested@.contains(k) && supports(r, k),
            res is Err ==> res == Err::<(T, Vec<EventKind>), ResourceError>(
                ResourceError::Terminated,
            ),
    {
        let native = match self.get_resource() {
            Ok(v) => v,
            Err(e) => {
                return Err(e);
            },
        };
        let (mut set, handle) = self.subscriptions.acquire_write();
        let attach = set.subscribe(r, requested);
        handle.release_write(set);
        Ok((native, attach))
    }

    /// Whether an acquisition made now fails.
    pub fn is_disposed(&self) -> bool {
        self.get_resource().is_err()
    }
}

} // verus!
