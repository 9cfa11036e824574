//! A write-once, multi-writer, multi-reader consensus cell.
//!
//! An `IVar` is a broadcast cell that any number of writers may try to
//! fill: the first write pins the value for good, and every later write
//! must carry an equal value — an equal write succeeds as a no-op, an
//! unequal one is refused with `ValueMismatch`. Readers take cloneable,
//! read-only [`IVal`] handles onto the pinned value, either by waiting
//! for it ([`IVar::read`]) or by a non-blocking probe ([`IVar::sample`]).
//! The ghost model of a cell is a [`CellModel`]; the contract of
//! [`IVar::write`] says the cell steps by [`cell_write`] and answers by
//! [`cell_write_result`], and the agreement and idempotence laws are
//! proved over those steps.
//!
//! Equality of stored values is the value type's own `==`. Its result is
//! pinned down in contracts whenever the type's equality obeys its
//! specification (`T::obeys_eq_spec()`), as the equality of every plain
//! data type does.

use std::sync::Arc;

use vstd::prelude::*;

verus! {

use vstd::std_specs::cmp::PartialEqSpec;

/// A read-only handle onto the cell's contents. All handles cloned from
/// one another share the same contents; once the cell is pinned no
/// writer ever acts again, so reading through a handle is contention
/// free.
#[derive(Debug)]
pub struct IVal<T: PartialEq>(Arc<Option<T>>);

impl<T: PartialEq> IVal<T> {
    /// The shared contents: `None` on the handle a probe returns before
    /// the pin, `Some` of the pinned value afterwards.
    pub closed spec fn value(self) -> Option<T> {
        *self.0
    }

    /// Read the shared contents.
    pub fn read(&self) -> (r: &Option<T>)
        ensures
            *r == self.value(),
    {
        &*self.0
    }

    /// Another handle onto the same shared contents.
    pub fn clone(&self) -> (r: IVal<T>)
        ensures
            r.value() == self.value(),
    {
        IVal(Arc::clone(&self.0))
    }

    /// Deposit `t`: the one write, made by the pinning writer before any
    /// reader holds this handle.
    fn write(&mut self, t: T)
        ensures
            final(self).value() == Some(t),
    {
        *self = IVal(Arc::new(Some(t)));
    }

    /// Wrap shared contents in a handle.
    fn new(a: Arc<Option<T>>) -> (r: IVal<T>)
        ensures
            r.value() == *a,
    {
        IVal(a)
    }
}

impl<T: PartialEq> PartialEq for IVal<T> {
    /// Handles are equal when their contents are.
    fn eq(&self, other: &Self) -> (r: bool) {
        let data1 = self.read();
        let data2 = other.read();
        data1 == data2
    }
}

impl<T: PartialEq> vstd::std_specs::cmp::PartialEqSpecImpl for IVal<T> {
    open spec fn obeys_eq_spec() -> bool {
        T::obeys_eq_spec()
    }

    open spec fn eq_spec(&self, other: &IVal<T>) -> bool {
        PartialEqSpec::eq_spec(&self.value(), &other.value())
    }
}

/// A diagnostic snapshot of a consensus cell.
#[derive(Clone, Copy, Debug, PartialEq, Eq, Structural)]
pub enum IVarState {
    /// The instance bypassed the constructor; nothing can be done with it.
    Unintialized,
    /// The pinning write has not occurred.
    Empty,
    /// The value is pinned; the cell is now a place to retrieve handles.
    Filled,
}

/// The ways a cell operation can be refused. A `ValueMismatch` is an
/// ordinary outcome when independent writers race with different
/// proposals; neither refusal changes the cell.
#[derive(Clone, Copy, Debug, PartialEq, Eq, Structural)]
pub enum IVarError {
    /// A write carried a value unequal to the pinned one.
    ValueMismatch,
    /// The instance bypassed the constructor.
    Uninitialized,
}

/// The ghost model of a consensus cell: the defensive construction flag,
/// the pin flag, and the value slot.
pub struct CellModel<T> {
    /// The instance was built by the constructor.
    pub init: bool,
    /// The pinning write has happened; the slot never changes again.
    pub pinned: bool,
    /// The pinned value, `Some` exactly once pinned.
    pub slot: Option<T>,
}

/// How `write` steps the model: only the pinning write moves it.
pub open spec fn cell_write<T>(m: CellModel<T>, t: T) -> CellModel<T> {
    if m.init && !m.pinned {
        CellModel { init: m.init, pinned: true, slot: Some(t) }
    } else {
        m
    }
}

/// The result `write` hands back, exact whenever `T`'s equality obeys
/// its specification: the pinning write and every equal re-write
/// succeed, an unequal re-write is refused.
pub open spec fn cell_write_result<T: PartialEq>(m: CellModel<T>, t: T) -> Result<
    (),
    IVarError,
> {
    if !m.init {
        Err(IVarError::Uninitialized)
    } else if !m.pinned {
        Ok(())
    } else if m.slot matches Some(x) && t.eq_spec(&x) {
        Ok(())
    } else {
        Err(IVarError::ValueMismatch)
    }
}

/// The state read off a model by `state`.
pub open spec fn cell_state<T>(m: CellModel<T>) -> IVarState {
    if !m.init {
        IVarState::Unintialized
    } else if m.pinned {
        IVarState::Filled
    } else {
        IVarState::Empty
    }
}

/// A write-once consensus cell; its ghost model is a [`CellModel`].
/// Think of it as a future that was run at least once and then cached:
/// whoever computes the value first pins it, everybody else must agree.
#[derive(Debug)]
pub struct IVar<T: PartialEq> {
    init: bool,
    send_used: bool,
    val: IVal<T>,
}

impl<T: PartialEq> View for IVar<T> {
    type V = CellModel<T>;

    closed spec fn view(&self) -> CellModel<T> {
        CellModel { init: self.init, pinned: self.send_used, slot: self.val.value() }
    }
}

impl<T: PartialEq> IVar<T> {
    /// Create an empty cell: constructed, not pinned, slot empty.
    pub fn new() -> (c: IVar<T>)
        ensures
            c@ == (CellModel { init: true, pinned: false, slot: None::<T> }),
    {
        IVar { init: true, send_used: false, val: IVal(Arc::new(None)) }
    }

    /// A snapshot of the cell's state, derived from the pin flag.
    pub fn state(&self) -> (s: IVarState)
        ensures
            s == cell_state(self@),
    {
        match self.check_init() {
            false => IVarState::Unintialized,
            _ => match self.check_send_used() {
                false => IVarState::Empty,
                _ => IVarState::Filled,
            },
        }
    }

    /// Try to deposit `t` into the cell.
    ///
    /// The first writer pins `t` for good. A later writer never blocks:
    /// its value is compared against the pinned one, an equal value
    /// succeeds as a no-op, an unequal one is refused with
    /// `ValueMismatch`. Either way the cell is left exactly as the
    /// pinning write made it.
    pub fn write(&mut self, t: T) -> (r: Result<(), IVarError>)
        ensures
            final(self)@ == cell_write(old(self)@, t),
            T::obeys_eq_spec() ==> r == cell_write_result(old(self)@, t),
            !old(self)@.init ==> r == Err::<(), IVarError>(IVarError::Uninitialized),
            old(self)@.init && !old(self)@.pinned ==> r == Ok::<(), IVarError>(()),
            old(self)@.init && old(self)@.pinned ==> r == Ok::<(), IVarError>(()) || r == Err::<
                (),
                IVarError,
            >(IVarError::ValueMismatch),
    {
        match self.check_init() {
            false => Err(IVarError::Uninitialized),
            true => {
                match self.check_send_used() {
                    true => {
                        let data = self.val.read();
                        match data {
                            Some(x) => match &t == x {
                                true => Ok(()),
                                _ => Err(IVarError::ValueMismatch),
                            },
                            None => Err(IVarError::ValueMismatch),
                        }
                    },
                    false => {
                        self.val.write(t);
                        self.send_used = true;
                        Ok(())
                    },
                }
            },
        }
    }

    /// Wait for the pin and take a read handle onto the value.
    ///
    /// A read suspends until the cell is pinned, so with a single owner
    /// it is only admitted once that has happened; the handle it returns
    /// shows the pinned value, and the cell itself is untouched.
    pub fn read(&self) -> (r: Result<IVal<T>, IVarError>)
        requires
            self@.init ==> self@.pinned,
        ensures
            !self@.init ==> r == Err::<IVal<T>, IVarError>(IVarError::Uninitialized),
            self@.init ==> (r matches Ok(h) && h.value() == self@.slot),
    {
        match self.check_init() {
            false => Err(IVarError::Uninitialized),
            true => Ok(self.val.clone()),
        }
    }

    /// Probe the cell without waiting.
    ///
    /// Before the pin this returns `false` and an empty handle; after
    /// it, `true` and a handle onto the pinned value. Racing a writer
    /// arbitrarily closely is resolved in the concurrent realization by
    /// a bounded wait on the completion signal once the pin flag is
    /// seen, so a `true` probe always carries the full value — here that
    /// is immediate.
    pub fn sample(&self) -> (r: Result<(bool, IVal<T>), IVarError>)
        ensures
            !self@.init ==> r == Err::<(bool, IVal<T>), IVarError>(IVarError::Uninitialized),
            self@.init && !self@.pinned ==> (r matches Ok(p) && p.0 == false && p.1.value()
                is None),
            self@.init && self@.pinned ==> (r matches Ok(p) && p.0 == true && p.1.value()
                == self@.slot),
    {
        match self.check_init() {
            false => Err(IVarError::Uninitialized),
            _ => {
                match self.check_send_used() {
                    false => Ok((false, IVal::new(Arc::new(None)))),
                    _ => Ok((true, self.val.clone())),
                }
            },
        }
    }

    /// Whether the pinning write has happened.
    fn check_send_used(&self) -> (b: bool)
        ensures
            b == self@.pinned,
    {
        self.send_used
    }

    /// Whether the instance came out of the constructor.
    fn check_init(&self) -> (b: bool)
        ensures
            b == self@.init,
    {
        self.init
    }
}

impl<T: PartialEq> PartialEq for IVar<T> {
    /// Two cells are equal when both are still empty, or both are pinned
    /// at equal values; an empty and a pinned cell are unequal.
    fn eq(&self, other: &Self) -> (r: bool) {
        let res1 = self.sample();
        let res2 = other.sample();
        match (res1, res2) {
            (Ok((a, b)), Ok((x, y))) => {
                if !a && !x {
                    true
                } else if a != x {
                    false
                } else {
                    let data1 = b.read();
                    let data2 = y.read();
                    data1 == data2
                }
            },
            (Err(_), Err(_)) => true,
            _ => false,
        }
    }
}

impl<T: PartialEq> vstd::std_specs::cmp::PartialEqSpecImpl for IVar<T> {
    open spec fn obeys_eq_spec() -> bool {
        T::obeys_eq_spec()
    }

    open spec fn eq_spec(&self, other: &IVar<T>) -> bool {
        if !self@.init || !other@.init {
            self@.init == other@.init
        } else if !self@.pinned && !other@.pinned {
            true
        } else if self@.pinned != other@.pinned {
            false
        } else {
            PartialEqSpec::eq_spec(&self@.slot, &other@.slot)
        }
    }
}

/// Law: independent writers reach consensus. On an empty cell, a write
/// of `a` succeeds and pins `Some(a)`, and every handle taken from the
/// cell thereafter shows exactly that slot; a second write of `b` never
/// moves the cell, succeeds when `b` equals the pinned `a`, and is
/// refused with `ValueMismatch` when it does not — so of two unequal
/// proposals exactly one is ever visible, consistently, to every reader.
pub proof fn lemma_consensus_agreement<T: PartialEq>(m: CellModel<T>, a: T, b: T)
    requires
        T::obeys_eq_spec(),
        m == (CellModel { init: true, pinned: false, slot: None::<T> }),
    ensures
        ({
            let m1 = cell_write(m, a);
            &&& cell_write_result(m, a) == Ok::<(), IVarError>(())
            &&& m1 == (CellModel { init: true, pinned: true, slot: Some(a) })
            &&& cell_write(m1, b) == m1
            &&& (b.eq_spec(&a) ==> cell_write_result(m1, b) == Ok::<(), IVarError>(()))
            &&& (!b.eq_spec(&a) ==> cell_write_result(m1, b) == Err::<(), IVarError>(
                IVarError::ValueMismatch,
            ))
            &&& cell_state(m1) == IVarState::Filled
        }),
{
}

/// Law: writing is idempotent. After a write of `v` has pinned an empty
/// cell, repeating the write with a value equal to `v` — in particular
/// with `v` itself, whenever `T`'s equality is reflexive at `v` —
/// succeeds again and is observably a no-op: the model does not move.
pub proof fn lemma_write_idempotent<T: PartialEq>(m: CellModel<T>, v1: T, v2: T)
    requires
        T::obeys_eq_spec(),
        v2.eq_spec(&v1),
        m == (CellModel { init: true, pinned: false, slot: None::<T> }),
    ensures
        ({
            let m1 = cell_write(m, v1);
            &&& cell_write_result(m, v1) == Ok::<(), IVarError>(())
            &&& cell_write_result(m1, v2) == Ok::<(), IVarError>(())
            &&& cell_write(m1, v2) == m1
            &&& cell_state(cell_write(m1, v2)) == cell_state(m1)
        }),
{
}

} // verus!
