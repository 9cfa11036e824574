//! A write-once consensus cell with an explicit poison path.
//!
//! `OnceCell` refines the plain consensus cell of [`crate::i_var`]: the
//! same first-write-pins, later-writers-must-agree protocol, but every
//! internal guard that a shared-memory realization would take is given a
//! tagged degraded state. A panic while one of those guards is held
//! poisons it; from then on every operation that would need the guard
//! reports a distinct `Posion*` error instead of propagating the panic
//! to unrelated callers. The three poison flags are threaded through the
//! ghost model and through every contract. The verified operations of
//! this crate never panic, so none of them ever sets a flag: the
//! constructor's all-clear state is where every reachable cell stays,
//! and the poison branches stand as the documented degraded mode.
//!
//! One deliberate asymmetry is kept: a pinning write claims the pin flag
//! *before* it takes the value guard, preferring a detectable stall — a
//! cell pinned with an empty slot, which readers can observe — to racing
//! a poisoned guard. The [`once_write`] step records exactly that.

use std::sync::Arc;

use vstd::prelude::*;

verus! {

use vstd::std_specs::cmp::PartialEqSpec;

/// A read-only handle onto the cell's contents. All handles cloned from
/// one another share the same contents; once the cell is pinned no
/// writer ever acts again, so reading through a handle is contention
/// free.
#[derive(Debug)]
pub struct OnceVal<T: PartialEq>(Arc<Option<T>>);

impl<T: PartialEq> OnceVal<T> {
    /// The shared contents: `None` on the handle a probe returns before
    /// the pin, `Some` of the pinned value afterwards.
    pub closed spec fn value(self) -> Option<T> {
        *self.0
    }

    /// Read the shared contents.
    pub fn read(&self) -> (r: &Option<T>)
        ensures
            *r == self.value(),
    {
        &*self.0
    }

    /// Another handle onto the same shared contents.
    pub fn clone(&self) -> (r: OnceVal<T>)
        ensures
            r.value() == self.value(),
    {
        OnceVal(Arc::clone(&self.0))
    }

    /// Deposit `t`: the one write, made by the pinning writer before any
    /// reader holds this handle.
    fn write(&mut self, t: T)
        ensures
            final(self).value() == Some(t),
    {
        *self = OnceVal(Arc::new(Some(t)));
    }

    /// Wrap shared contents in a handle.
    fn new(a: Arc<Option<T>>) -> (r: OnceVal<T>)
        ensures
            r.value() == *a,
    {
        OnceVal(a)
    }
}

impl<T: PartialEq> PartialEq for OnceVal<T> {
    /// Handles are equal when their contents are.
    fn eq(&self, other: &Self) -> (r: bool) {
        let data1 = self.read();
        let data2 = other.read();
        data1 == data2
    }
}

impl<T: PartialEq> vstd::std_specs::cmp::PartialEqSpecImpl for OnceVal<T> {
    open spec fn obeys_eq_spec() -> bool {
        T::obeys_eq_spec()
    }

    open spec fn eq_spec(&self, other: &OnceVal<T>) -> bool {
        PartialEqSpec::eq_spec(&self.value(), &other.value())
    }
}

/// A diagnostic snapshot of a cell.
#[derive(Clone, Copy, Debug, PartialEq, Eq, Structural)]
pub enum OnceCellState {
    /// The instance bypassed the constructor; nothing can be done with it.
    Unintialized,
    /// The pinning write has not occurred.
    Empty,
    /// The value is pinned; the cell is now a place to retrieve handles.
    Filled,
}

/// The ways a cell operation can be refused. The `Posion*` variants
/// report a guard poisoned by a panic while it was held; each names the
/// guard concerned, so a healthy caller learns which part of the
/// instance is degraded.
#[derive(Clone, Copy, Debug, PartialEq, Eq, Structural)]
pub enum OnceCellError {
    /// The value's write lock was poisoned under the pinning write.
    PosionWriteLock,
    /// The guard that decides pin ownership was poisoned.
    PosionWriteGuard,
    /// The guard in front of the value's handle was poisoned.
    PosionValueGuard,
    /// The instance bypassed the constructor.
    Uninitialized,
    /// A write carried a value unequal to the pinned one.
    ValueMismatch,
}

/// The ghost model of a poison-aware consensus cell: the defensive
/// construction flag, the pin flag, the value slot, and one degraded
/// flag per internal guard.
pub struct OnceModel<T> {
    /// The instance was built by the constructor.
    pub init: bool,
    /// The pinning write has claimed the cell.
    pub pinned: bool,
    /// The pinned value: `Some` exactly once a pinning write completed.
    pub slot: Option<T>,
    /// The pin-ownership guard is poisoned.
    pub guard_poisoned: bool,
    /// The value-handle guard is poisoned.
    pub value_poisoned: bool,
    /// The value's write lock is poisoned.
    pub lock_poisoned: bool,
}

/// Whether a probe of the cell reports an error rather than a reading.
pub open spec fn once_sample_errs<T>(m: OnceModel<T>) -> bool {
    !m.init || m.guard_poisoned || (m.pinned && m.value_poisoned)
}

/// How `write` steps the model. Only a pinning write moves it — and a
/// pinning write that then finds the value's write lock poisoned still
/// claims the pin flag, leaving the slot empty: a detectable stall
/// rather than a silent retry.
pub open spec fn once_write<T>(m: OnceModel<T>, t: T) -> OnceModel<T> {
    if !m.init || m.guard_poisoned || m.value_poisoned || m.pinned {
        m
    } else if m.lock_poisoned {
        OnceModel { pinned: true, ..m }
    } else {
        OnceModel { pinned: true, slot: Some(t), ..m }
    }
}

/// The result `write` hands back, exact whenever `T`'s equality obeys
/// its specification.
pub open spec fn once_write_result<T: PartialEq>(m: OnceModel<T>, t: T) -> Result<
    (),
    OnceCellError,
> {
    if !m.init {
        Err(OnceCellError::Uninitialized)
    } else if m.guard_poisoned {
        Err(OnceCellError::PosionWriteGuard)
    } else if m.value_poisoned {
        Err(OnceCellError::PosionValueGuard)
    } else if m.pinned {
        if m.slot matches Some(x) && t.eq_spec(&x) {
            Ok(())
        } else {
            Err(OnceCellError::ValueMismatch)
        }
    } else if m.lock_poisoned {
        Err(OnceCellError::PosionWriteLock)
    } else {
        Ok(())
    }
}

/// The state read off a model by `state`.
pub open spec fn once_state<T>(m: OnceModel<T>) -> OnceCellState {
    if !m.init {
        OnceCellState::Unintialized
    } else if m.pinned {
        OnceCellState::Filled
    } else {
        OnceCellState::Empty
    }
}

/// A poison-aware write-once consensus cell; its ghost model is an
/// [`OnceModel`].
#[derive(Debug)]
pub struct OnceCell<T: PartialEq> {
    init: bool,
    send_used: bool,
    val: OnceVal<T>,
    guard_poisoned: bool,
    value_poisoned: bool,
    lock_poisoned: bool,
}

impl<T: PartialEq> View for OnceCell<T> {
    type V = OnceModel<T>;

    closed spec fn view(&self) -> OnceModel<T> {
        OnceModel {
            init: self.init,
            pinned: self.send_used,
            slot: self.val.value(),
            guard_poisoned: self.guard_poisoned,
            value_poisoned: self.value_poisoned,
            lock_poisoned: self.lock_poisoned,
        }
    }
}

impl<T: PartialEq> OnceCell<T> {
    /// Create an empty cell: constructed, not pinned, slot empty, every
    /// guard healthy.
    pub fn new() -> (c: OnceCell<T>)
        ensures
            c@ == (OnceModel {
                init: true,
                pinned: false,
                slot: None::<T>,
                guard_poisoned: false,
                value_poisoned: false,
                lock_poisoned: false,
            }),
    {
        OnceCell {
            init: true,
            send_used: false,
            val: OnceVal(Arc::new(None)),
            guard_poisoned: false,
            value_poisoned: false,
            lock_poisoned: false,
        }
    }

    /// A snapshot of the cell's state, derived from the pin flag.
    pub fn state(&self) -> (s: OnceCellState)
        ensures
            s == once_state(self@),
    {
        match self.check_init() {
            false => OnceCellState::Unintialized,
            _ => match self.check_send_used() {
                false => OnceCellState::Empty,
                _ => OnceCellState::Filled,
            },
        }
    }

    /// Try to deposit `t` into the cell.
    ///
    /// The first writer pins `t` for good; a later writer's value is
    /// compared against the pinned one without blocking, an equal value
    /// succeeding as a no-op and an unequal one refused with
    /// `ValueMismatch`. A poisoned guard turns the attempt into the
    /// matching `Posion*` error before anything is decided — except that
    /// a pinning write finding the value's write lock poisoned has
    /// already claimed the pin, the stall recorded by [`once_write`].
    pub fn write(&mut self, t: T) -> (r: Result<(), OnceCellError>)
        ensures
            final(self)@ == once_write(old(self)@, t),
            T::obeys_eq_spec() ==> r == once_write_result(old(self)@, t),
            !old(self)@.init ==> r == Err::<(), OnceCellError>(OnceCellError::Uninitialized),
            old(self)@.init && !old(self)@.guard_poisoned && !old(self)@.value_poisoned && !old(
                self,
            )@.pinned && !old(self)@.lock_poisoned ==> r == Ok::<(), OnceCellError>(()),
            old(self)@.init && !old(self)@.guard_poisoned && !old(self)@.value_poisoned && old(
                self,
            )@.pinned ==> r == Ok::<(), OnceCellError>(()) || r == Err::<(), OnceCellError>(
                OnceCellError::ValueMismatch,
            ),
            r is Err ==> final(self)@.slot == old(self)@.slot,
    {
        match self.check_init() {
            false => Err(OnceCellError::Uninitialized),
            true => {
                if self.guard_poisoned {
                    Err(OnceCellError::PosionWriteGuard)
                } else if self.value_poisoned {
                    Err(OnceCellError::PosionValueGuard)
                } else {
                    match self.check_send_used() {
                        true => {
                            let data = self.val.read();
                            match data {
                                Some(x) => match &t == x {
                                    true => Ok(()),
                                    _ => Err(OnceCellError::ValueMismatch),
                                },
                                // Reached only in the stalled aftermath of a
                                // poisoned pinning write: the pin is claimed
                                // and the slot is empty, so no proposal can
                                // match it.
                                None => Err(OnceCellError::ValueMismatch),
                            }
                        },
                        false => {
                            // Claim the pin before touching the write lock,
                            // preferring a detectable stall to a panic.
                            self.send_used = true;
                            if self.lock_poisoned {
                                Err(OnceCellError::PosionWriteLock)
                            } else {
                                self.val.write(t);
                                Ok(())
                            }
                        },
                    }
                }
            },
        }
    }

    /// Wait for the pinned value and take a read handle onto it.
    ///
    /// A read suspends until a pinning write has completed — that is,
    /// until the slot is filled — so with a single owner it is only
    /// admitted once that has happened; the refusals return without
    /// waiting. The handle shows the pinned value; the cell is
    /// untouched.
    pub fn read(&self) -> (r: Result<OnceVal<T>, OnceCellError>)
        requires
            self@.init ==> self@.slot is Some,
        ensures
            !self@.init ==> r == Err::<OnceVal<T>, OnceCellError>(OnceCellError::Uninitialized),
            self@.init && self@.value_poisoned ==> r == Err::<OnceVal<T>, OnceCellError>(
                OnceCellError::PosionValueGuard,
            ),
            self@.init && !self@.value_poisoned ==> (r matches Ok(h) && h.value() == self@.slot),
    {
        match self.check_init() {
            false => Err(OnceCellError::Uninitialized),
            true => {
                if self.value_poisoned {
                    Err(OnceCellError::PosionValueGuard)
                } else {
                    Ok(self.val.clone())
                }
            },
        }
    }

    /// Probe the cell without waiting.
    ///
    /// Before the pin this returns `false` and an empty handle; after a
    /// completed pinning write, `true` and a handle onto the pinned
    /// value; a poisoned guard yields its `Posion*` error instead. In
    /// the concurrent realization a probe that sees the pin flag waits
    /// briefly on the completion signal so that a `true` reading always
    /// carries the full value — here the reading is immediate.
    pub fn sample(&self) -> (r: Result<(bool, OnceVal<T>), OnceCellError>)
        ensures
            !self@.init ==> r == Err::<(bool, OnceVal<T>), OnceCellError>(
                OnceCellError::Uninitialized,
            ),
            self@.init && self@.guard_poisoned ==> r == Err::<(bool, OnceVal<T>), OnceCellError>(
                OnceCellError::PosionWriteGuard,
            ),
            self@.init && !self@.guard_poisoned && !self@.pinned ==> (r matches Ok(p) && p.0
                == false && p.1.value() is None),
            self@.init && !self@.guard_poisoned && self@.pinned && self@.value_poisoned ==> r
                == Err::<(bool, OnceVal<T>), OnceCellError>(OnceCellError::PosionValueGuard),
            self@.init && !self@.guard_poisoned && self@.pinned && !self@.value_poisoned ==> (
            r matches Ok(p) && p.0 == true && p.1.value() == self@.slot),
    {
        match self.check_init() {
            false => Err(OnceCellError::Uninitialized),
            _ => {
                if self.guard_poisoned {
                    Err(OnceCellError::PosionWriteGuard)
                } else {
                    match self.check_send_used() {
                        false => Ok((false, OnceVal::new(Arc::new(None)))),
                        _ => {
                            if self.value_poisoned {
                                Err(OnceCellError::PosionValueGuard)
                            } else {
                                Ok((true, self.val.clone()))
                            }
                        },
                    }
                }
            },
        }
    }

    /// Whether the pinning write has claimed the cell.
    fn check_send_used(&self) -> (b: bool)
        ensures
            b == self@.pinned,
    {
        self.send_used
    }

    /// Whether the instance came out of the constructor.
    fn check_init(&self) -> (b: bool)
        ensures
            b == self@.init,
    {
        self.init
    }
}

impl<T: PartialEq> PartialEq for OnceCell<T> {
    /// Two cells are equal when both probes fail, or both succeed and
    /// agree: still empty on both sides, or pinned at equal values.
    fn eq(&self, other: &Self) -> (r: bool) {
        let res1 = self.sample();
        let res2 = other.sample();
        match (res1, res2) {
            (Err(_), Err(_)) => true,
            (Err(_), Ok(_)) => false,
            (Ok(_), Err(_)) => false,
            (Ok((a, b)), Ok((x, y))) => {
                if !a && !x {
                    true
                } else if a != x {
                    false
                } else {
                    let data1 = b.read();
                    let data2 = y.read();
                    data1 == data2
                }
            },
        }
    }
}

impl<T: PartialEq> vstd::std_specs::cmp::PartialEqSpecImpl for OnceCell<T> {
    open spec fn obeys_eq_spec() -> bool {
        T::obeys_eq_spec()
    }

    open spec fn eq_spec(&self, other: &OnceCell<T>) -> bool {
        if once_sample_errs(self@) && once_sample_errs(other@) {
            true
        } else if once_sample_errs(self@) != once_sample_errs(other@) {
            false
        } else if !self@.pinned && !other@.pinned {
            true
        } else if self@.pinned != other@.pinned {
            false
        } else {
            PartialEqSpec::eq_spec(&self@.slot, &other@.slot)
        }
    }
}

/// Law: the poison-aware cell keeps the consensus laws. On a healthy
/// empty cell, a write of `a` succeeds and pins `Some(a)`, which every
/// handle taken thereafter shows; a later write of `b` never moves the
/// cell, succeeds exactly when `b` equals the pinned `a` — in
/// particular a repeat of an equal value is an observable no-op — and
/// is refused with `ValueMismatch` otherwise.
pub proof fn lemma_once_agreement<T: PartialEq>(m: OnceModel<T>, a: T, b: T)
    requires
        T::obeys_eq_spec(),
        m == (OnceModel {
            init: true,
            pinned: false,
            slot: None::<T>,
            guard_poisoned: false,
            value_poisoned: false,
            lock_poisoned: false,
        }),
    ensures
        ({
            let m1 = once_write(m, a);
            &&& once_write_result(m, a) == Ok::<(), OnceCellError>(())
            &&& m1.pinned && m1.slot == Some(a)
            &&& once_write(m1, b) == m1
            &&& (b.eq_spec(&a) ==> once_write_result(m1, b) == Ok::<(), OnceCellError>(()))
            &&& (!b.eq_spec(&a) ==> once_write_result(m1, b) == Err::<(), OnceCellError>(
                OnceCellError::ValueMismatch,
            ))
            &&& once_state(m1) == OnceCellState::Filled
        }),
{
}

/// Law: poison is permanent and sterile. A cell whose pin-ownership
/// guard is poisoned refuses every write with `PosionWriteGuard` and
/// every probe likewise, and no such refusal ever moves the model — the
/// degraded state is reported, never silently treated as an empty cell.
pub proof fn lemma_poisoned_guard_refuses<T: PartialEq>(m: OnceModel<T>, t: T)
    requires
        m.init,
        m.guard_poisoned,
    ensures
        once_write(m, t) == m,
        once_write_result(m, t) == Err::<(), OnceCellError>(OnceCellError::PosionWriteGuard),
        once_sample_errs(m),
{
}

} // verus!
