//! Sharing one peripheral handle between the foreground and an interrupt.
//!
//! On the device the lock is a critical section: while one context is inside,
//! the interrupts that could touch the same handle are masked, and one that
//! fires stays pending until the section ends. This module holds that
//! discipline as a state machine, with the two halves of a locked section as
//! separate steps, so that what happens in between can be played through.

use vstd::prelude::*;
use crate::fault::Fault;

verus! {

/// Who is running: the foreground loop, or an interrupt handler.
#[derive(Clone, Copy, Debug, PartialEq, Eq, Structural)]
pub enum Context {
    Foreground,
    Interrupt,
}

/// What a context that asked for the handle was told.
#[derive(Debug, PartialEq, Eq)]
pub enum Entry<T> {
    /// The handle is the caller's until it leaves.
    Granted(T),
    /// Another context is inside. The caller has to wait until that one
    /// leaves.
    Deferred,
}

/// One step at a lock: a context asks to get in, or hands the handle back.
pub enum LockEvent<T> {
    /// The context asks for the handle.
    Enter(Context),
    /// The context hands the handle back, in the state given.
    Leave(Context, T),
}

/// What a `PeripheralLock` stands for.
pub struct LockView<T> {
    /// The handle while the lock has one and nobody is inside.
    pub handle: Option<T>,
    /// The context that is inside, and has the handle.
    pub holder: Option<Context>,
    /// Whether a context asked while another was inside, and still waits.
    pub deferred: bool,
}

impl<T> LockView<T> {
    /// The handle is either in the lock or with the one context inside, and
    /// nobody waits on a lock that nobody is in.
    pub open spec fn wf(self) -> bool {
        &&& self.handle is Some ==> self.holder is None
        &&& self.deferred ==> self.holder is Some
    }

    /// The lock before it was given a handle.
    pub open spec fn empty() -> LockView<T> {
        LockView { handle: None, holder: None, deferred: false }
    }

    /// Whether the lock was given its handle.
    pub open spec fn initialised(self) -> bool {
        self.handle is Some || self.holder is Some
    }

    /// The lock after `init(handle)`: it takes the handle if it never had
    /// one, and is unchanged otherwise.
    pub open spec fn init(self, handle: T) -> LockView<T> {
        if self.initialised() {
            self
        } else {
            LockView { handle: Some(handle), ..self }
        }
    }

    /// What `init` returns: misuse on a lock that has its handle.
    pub open spec fn init_result(self) -> Result<(), Fault> {
        if self.initialised() {
            Err(Fault::LockMisuse)
        } else {
            Ok(())
        }
    }

    /// The lock after `enter(who)`. A free lock gives its handle to `who`. A
    /// lock that is held keeps its holder and notes that someone waits. A
    /// lock without a handle is unchanged.
    pub open spec fn enter(self, who: Context) -> LockView<T> {
        if self.handle is Some {
            LockView { handle: None, holder: Some(who), ..self }
        } else if self.holder is Some {
            LockView { deferred: true, ..self }
        } else {
            self
        }
    }

    /// What `enter` returns: the handle from a free lock, a deferral from a
    /// held one, misuse from one without a handle.
    pub open spec fn enter_result(self) -> Result<Entry<T>, Fault> {
        match self.handle {
            Some(handle) => Ok(Entry::Granted(handle)),
            None => if self.holder is Some {
                Ok(Entry::Deferred)
            } else {
                Err(Fault::LockMisuse)
            },
        }
    }

    /// The lock after `leave(who, handle)`. If `who` is inside, the lock has
    /// the handle back, is free, and nobody waits any longer. Otherwise it is
    /// unchanged.
    pub open spec fn leave(self, who: Context, handle: T) -> LockView<T> {
        if self.holder == Some(who) {
            LockView { handle: Some(handle), holder: None, deferred: false }
        } else {
            self
        }
    }

    /// What `leave` returns: whether a deferred context is now due, or
    /// misuse if `who` is not inside.
    pub open spec fn leave_result(self, who: Context) -> Result<bool, Fault> {
        if self.holder == Some(who) {
            Ok(self.deferred)
        } else {
            Err(Fault::LockMisuse)
        }
    }

    /// The lock after one event.
    pub open spec fn after(self, event: LockEvent<T>) -> LockView<T> {
        match event {
            LockEvent::Enter(who) => self.enter(who),
            LockEvent::Leave(who, handle) => self.leave(who, handle),
        }
    }

    /// The lock after all of `events`, in order.
    pub open spec fn run(self, events: Seq<LockEvent<T>>) -> LockView<T>
        decreases events.len(),
    {
        if events.len() == 0 {
            self
        } else {
            self.run(events.drop_last()).after(events.last())
        }
    }

    /// By how much `event` changes the number of contexts inside, going by
    /// what the event's caller is told: one more for an entry that is
    /// granted, one less for a leave that is accepted.
    pub open spec fn admits(self, event: LockEvent<T>) -> int {
        match event {
            LockEvent::Enter(_) => if self.enter_result() matches Ok(Entry::Granted(_)) {
                1
            } else {
                0
            },
            LockEvent::Leave(who, _) => if self.leave_result(who) is Ok {
                -1
            } else {
                0
            },
        }
    }

    /// How many contexts are inside after `events`, if none was before.
    pub open spec fn inside(self, events: Seq<LockEvent<T>>) -> int
        decreases events.len(),
    {
        if events.len() == 0 {
            0
        } else {
            self.inside(events.drop_last()) + self.run(events.drop_last()).admits(events.last())
        }
    }
}

/// At most one context is inside at any time. Starting from a lock that
/// nobody is in, and whatever is asked of it in whatever order, the entries
/// granted and not yet left number none or one, and one exactly while the
/// lock names a holder.
pub proof fn lemma_mutual_exclusion<T>(lock: LockView<T>, events: Seq<LockEvent<T>>)
    requires
        lock.wf(),
        lock.holder is None,
    ensures
        lock.run(events).wf(),
        0 <= lock.inside(events) <= 1,
        lock.inside(events) == 1 <==> lock.run(events).holder is Some,
        lock.run(events).initialised() == lock.initialised(),
    decreases events.len(),
{
    if events.len() > 0 {
        lemma_mutual_exclusion(lock, events.drop_last());
    }
}

/// An interrupt that fires while the foreground is inside waits for it. The
/// interrupt is deferred and gets no handle; the foreground is still the one
/// inside; when it leaves it is told that someone waits; and the interrupt
/// that asks again then gets the handle exactly as the foreground left it.
pub proof fn lemma_interrupt_is_deferred<T>(lock: LockView<T>, handle: T)
    requires
        lock.wf(),
        lock.holder == Some(Context::Foreground),
    ensures
        lock.enter_result() == Ok::<Entry<T>, Fault>(Entry::Deferred),
        lock.enter(Context::Interrupt).holder == Some(Context::Foreground),
        lock.enter(Context::Interrupt).handle is None,
        lock.enter(Context::Interrupt).leave_result(Context::Foreground) == Ok::<bool, Fault>(true),
        lock.enter(Context::Interrupt).leave(Context::Foreground, handle).enter_result()
            == Ok::<Entry<T>, Fault>(Entry::Granted(handle)),
        lock.enter(Context::Interrupt).leave(Context::Foreground, handle).enter(Context::Interrupt).holder
            == Some(Context::Interrupt),
{
}

/// A lock takes a handle exactly once: `init` succeeds on a lock that never
/// had one, and from then on every `init` is misuse and changes nothing,
/// whatever happened at the lock in between.
pub proof fn lemma_initialised_once<T>(first: T, events: Seq<LockEvent<T>>, second: T)
    ensures
        LockView::<T>::empty().init_result() is Ok,
        LockView::<T>::empty().enter_result() == Err::<Entry<T>, Fault>(Fault::LockMisuse),
        ({
            let lock = LockView::<T>::empty().init(first).run(events);
            &&& lock.init_result() == Err::<(), Fault>(Fault::LockMisuse)
            &&& lock.init(second) == lock
        }),
{
    lemma_mutual_exclusion(LockView::<T>::empty().init(first), events);
}

/// A lock around one peripheral handle.
pub struct PeripheralLock<T> {
    handle: Option<T>,
    holder: Option<Context>,
    deferred: bool,
}

impl<T> View for PeripheralLock<T> {
    type V = LockView<T>;

    closed spec fn view(&self) -> LockView<T> {
        LockView { handle: self.handle, holder: self.holder, deferred: self.deferred }
    }
}

impl<T> PeripheralLock<T> {
    /// Holds of every lock at all times.
    #[verifier::type_invariant]
    pub open spec fn inv(&self) -> bool {
        self@.wf()
    }

    /// A lock without a handle.
    pub fn new() -> (lock: PeripheralLock<T>)
        ensures
            lock@ == LockView::<T>::empty(),
    {
        PeripheralLock { handle: None, holder: None, deferred: false }
    }

    /// Whether the lock was given its handle.
    pub fn is_initialised(&self) -> (initialised: bool)
        ensures
            initialised == self@.initialised(),
    {
        self.handle.is_some() || self.holder.is_some()
    }

    /// The context that is inside, if one is.
    pub fn holder(&self) -> (holder: Option<Context>)
        ensures
            holder == self@.holder,
            self@.wf(),
    {
        proof {
            use_type_invariant(self);
        }
        self.holder
    }

    /// Whether a context waits for the holder to leave.
    pub fn has_deferred(&self) -> (deferred: bool)
        ensures
            deferred == self@.deferred,
    {
        self.deferred
    }

    /// Gives the lock its handle. This is to happen once, before the lock is
    /// used: on a lock that has its handle the call is misuse and changes
    /// nothing.
    pub fn init(&mut self, handle: T) -> (done: Result<(), Fault>)
        ensures
            final(self)@ == old(self)@.init(handle),
            done == old(self)@.init_result(),
    {
        if self.handle.is_some() || self.holder.is_some() {
            Err(Fault::LockMisuse)
        } else {
            proof {
                use_type_invariant(&*self);
            }
            self.handle = Some(handle);
            Ok(())
        }
    }

    /// The first half of a locked section: `who` asks for the handle.
    ///
    /// A free lock hands it over, and `who` is inside until it leaves. A lock
    /// that another context is in defers the caller and remembers that
    /// someone waits. On a lock without a handle the call is misuse.
    pub fn enter(&mut self, who: Context) -> (entry: Result<Entry<T>, Fault>)
        ensures
            final(self)@ == old(self)@.enter(who),
            entry == old(self)@.enter_result(),
    {
        proof {
            use_type_invariant(&*self);
        }
        if self.handle.is_some() {
            let mut before = PeripheralLock { handle: None, holder: Some(who), deferred: false };
            core::mem::swap(self, &mut before);
            Ok(Entry::Granted(before.handle.unwrap()))
        } else if self.holder.is_some() {
            self.deferred = true;
            Ok(Entry::Deferred)
        } else {
            Err(Fault::LockMisuse)
        }
    }

    /// A whole locked section: `who` asks for the handle, `section` runs on
    /// it, and the handle goes back as `section` left it.
    ///
    /// Nothing can come between the two halves here, so a section that gets
    /// in leaves the lock free with nobody waiting. A caller that is deferred
    /// or misuses the lock gets what `enter` would give it, and `section`
    /// does not run.
    pub fn with_lock<R, F: FnOnce(T) -> (T, R)>(&mut self, who: Context, section: F) -> (outcome: Result<
        Entry<R>,
        Fault,
    >)
        requires
            old(self)@.handle matches Some(handle) ==> section.requires((handle,)),
        ensures
            match old(self)@.handle {
                Some(handle) => exists|after: T, result: R|
                    {
                        &&& section.ensures((handle,), (after, result))
                        &&& final(self)@ == old(self)@.enter(who).leave(who, after)
                        &&& outcome == Ok::<Entry<R>, Fault>(Entry::Granted(result))
                    },
                None => {
                    &&& final(self)@ == old(self)@.enter(who)
                    &&& outcome == match old(self)@.enter_result() {
                        Ok(_) => Ok::<Entry<R>, Fault>(Entry::Deferred),
                        Err(fault) => Err::<Entry<R>, Fault>(fault),
                    }
                },
            },
    {
        match self.enter(who) {
            Ok(Entry::Granted(handle)) => {
                let (after, result) = section(handle);
                let left = self.leave(who, after);
                Ok(Entry::Granted(result))
            },
            Ok(Entry::Deferred) => Ok(Entry::Deferred),
            Err(fault) => Err(fault),
        }
    }

    /// The second half of a locked section: `who` hands the handle back.
    ///
    /// Returns whether a context was deferred meanwhile and is due now. If
    /// `who` is not the context inside, the call is misuse and changes
    /// nothing.
    pub fn leave(&mut self, who: Context, handle: T) -> (due: Result<bool, Fault>)
        ensures
            final(self)@ == old(self)@.leave(who, handle),
            due == old(self)@.leave_result(who),
    {
        let inside = match self.holder {
            Some(holder) => holder == who,
            None => false,
        };
        if inside {
            let due = self.deferred;
            *self = PeripheralLock { handle: Some(handle), holder: None, deferred: false };
            Ok(due)
        } else {
            Err(Fault::LockMisuse)
        }
    }
}

} // verus!
