//! A single-sender, multi-reader broadcast future.
//!
//! A `PropChan` carries one value from one winning sender to arbitrarily
//! many readers: the send claims the channel for good and deposits the
//! value without waiting for anybody, and every reader thereafter observes
//! that same value through a cloneable, read-only [`PropResult`] handle.
//! A non-blocking [`PropChan::sample`] probe reports whether the send has
//! happened yet, which is the building block for selecting over several
//! pending futures. The ghost model of a channel is a [`FutureModel`], and
//! the contract of [`PropChan::send`] says that it steps the model by
//! [`fut_send`] exactly.

use std::sync::Arc;

use vstd::prelude::*;

verus! {

/// A read-only handle onto the value deposited by the winning send. All
/// handles cloned from one another share the same value; the send side is
/// gone, so holding or cloning a handle can never contend with a writer.
pub struct PropResult<T>(Arc<Option<T>>);

impl<T> PropResult<T> {
    /// The shared contents: `None` on the handle a probe returns before
    /// the send, `Some` of the broadcast value afterwards.
    pub closed spec fn value(self) -> Option<T> {
        *self.0
    }

    /// Read the shared contents.
    pub fn read(&self) -> (r: &Option<T>)
        ensures
            *r == self.value(),
    {
        &*self.0
    }

    /// Another handle onto the same shared contents.
    pub fn clone(&self) -> (r: PropResult<T>)
        ensures
            r.value() == self.value(),
    {
        PropResult(Arc::clone(&self.0))
    }

    /// Deposit `t`: the one write, made by the winning sender before any
    /// reader holds this handle.
    fn write(&mut self, t: T)
        ensures
            final(self).value() == Some(t),
    {
        *self = PropResult(Arc::new(Some(t)));
    }

    /// Wrap shared contents in a handle.
    fn new(a: Arc<Option<T>>) -> (r: PropResult<T>)
        ensures
            r.value() == *a,
    {
        PropResult(a)
    }
}

/// A diagnostic snapshot of a broadcast future.
#[derive(Clone, Copy, Debug, PartialEq, Eq, Structural)]
pub enum PropChanState {
    /// The instance bypassed the constructor; nothing can be done with it.
    Unintialized,
    /// The send has not occurred.
    Open,
    /// A transfer was made; the value is there to be read.
    Complete,
}

/// The ways an operation on a broadcast future can be refused; neither
/// refusal changes the channel.
#[derive(Clone, Copy, Debug, PartialEq, Eq, Structural)]
pub enum PropChanError {
    /// This instance already has a sender.
    UsedSendChanError,
    /// The instance bypassed the constructor.
    UninitializedChanError,
}

/// The ghost model of a broadcast future: the defensive construction
/// flag, the single-use send flag, and the value slot.
pub struct FutureModel<T> {
    /// The instance was built by the constructor.
    pub init: bool,
    /// A sender has claimed the channel.
    pub send_used: bool,
    /// The broadcast value: `Some` exactly once the send has happened.
    pub slot: Option<T>,
}

/// How `send` steps the model: the new model and the result handed back.
pub open spec fn fut_send<T>(m: FutureModel<T>, t: T) -> (FutureModel<T>, Result<
    (),
    PropChanError,
>) {
    if !m.init {
        (m, Err(PropChanError::UninitializedChanError))
    } else if m.send_used {
        (m, Err(PropChanError::UsedSendChanError))
    } else {
        (FutureModel { init: m.init, send_used: true, slot: Some(t) }, Ok(()))
    }
}

/// The state read off a model by `state`.
pub open spec fn fut_state<T>(m: FutureModel<T>) -> PropChanState {
    if !m.init {
        PropChanState::Unintialized
    } else if m.send_used {
        PropChanState::Complete
    } else {
        PropChanState::Open
    }
}

/// A single-sender broadcast future; its ghost model is a
/// [`FutureModel`]. Think of it as a future that was run once and then
/// cached: the winning send completes it, and every later read is free.
pub struct PropChan<T> {
    init: bool,
    send_used: bool,
    val: PropResult<T>,
}

impl<T> View for PropChan<T> {
    type V = FutureModel<T>;

    closed spec fn view(&self) -> FutureModel<T> {
        FutureModel { init: self.init, send_used: self.send_used, slot: self.val.value() }
    }
}

impl<T> PropChan<T> {
    /// Create an open future: constructed, no sender yet, slot empty.
    pub fn new() -> (c: PropChan<T>)
        ensures
            c@ == (FutureModel { init: true, send_used: false, slot: None::<T> }),
    {
        PropChan { init: true, send_used: false, val: PropResult(Arc::new(None)) }
    }

    /// A snapshot of the future's state, derived from the send flag.
    pub fn state(&self) -> (s: PropChanState)
        ensures
            s == fut_state(self@),
    {
        match self.check_init() {
            false => PropChanState::Unintialized,
            _ => match self.check_send_used() {
                false => PropChanState::Open,
                _ => PropChanState::Complete,
            },
        }
    }

    /// Deposit `t` and complete the future.
    ///
    /// The first sender wins the channel for good and returns at once,
    /// without waiting for any reader — the defining difference from a
    /// rendezvous. A later sender is refused with `UsedSendChanError` and
    /// the value already broadcast stands untouched.
    pub fn send(&mut self, t: T) -> (r: Result<(), PropChanError>)
        ensures
            (final(self)@, r) == fut_send(old(self)@, t),
    {
        match self.check_init() {
            false => Err(PropChanError::UninitializedChanError),
            true => {
                let r = self.set_send_used();
                match r {
                    Err(x) => Err(x),
                    Ok(()) => {
                        self.val.write(t);
                        Ok(())
                    },
                }
            },
        }
    }

    /// Wait for the value and take a read handle onto it.
    ///
    /// A receive suspends until the send has completed the future, so
    /// with a single owner it is only admitted once that has happened;
    /// the handle it returns shows the broadcast value, and the future
    /// itself is left untouched — any number of receives observe the same
    /// value.
    pub fn recv(&mut self) -> (r: Result<PropResult<T>, PropChanError>)
        requires
            old(self)@.init ==> old(self)@.send_used,
        ensures
            final(self)@ == old(self)@,
            !old(self)@.init ==> r == Err::<PropResult<T>, PropChanError>(
                PropChanError::UninitializedChanError,
            ),
            old(self)@.init ==> (r matches Ok(h) && h.value() == old(self)@.slot),
    {
        match self.check_init() {
            false => Err(PropChanError::UninitializedChanError),
            true => Ok(self.val.clone()),
        }
    }

    /// Probe the future without waiting.
    ///
    /// Before the send this returns `false` and an empty handle; after
    /// it, `true` and a handle onto the broadcast value. Racing a sender
    /// arbitrarily closely is resolved in the concurrent realization by a
    /// bounded wait on the completion signal once the send flag is seen,
    /// so a `true` probe always carries the full value — here that is
    /// immediate.
    pub fn sample(&mut self) -> (r: Result<(bool, PropResult<T>), PropChanError>)
        ensures
            final(self)@ == old(self)@,
            !old(self)@.init ==> r == Err::<(bool, PropResult<T>), PropChanError>(
                PropChanError::UninitializedChanError,
            ),
            old(self)@.init && !old(self)@.send_used ==> (r matches Ok(p) && p.0 == false
                && p.1.value() is None),
            old(self)@.init && old(self)@.send_used ==> (r matches Ok(p) && p.0 == true
                && p.1.value() == old(self)@.slot),
    {
        match self.check_init() {
            false => Err(PropChanError::UninitializedChanError),
            _ => {
                let is_complete = self.check_send_used();
                match is_complete {
                    false => Ok((false, PropResult::new(Arc::new(None)))),
                    _ => Ok((true, self.val.clone())),
                }
            },
        }
    }

    /// Claim the send side: flips the send flag the one time it can be.
    fn set_send_used(&mut self) -> (r: Result<(), PropChanError>)
        ensures
            old(self)@.send_used ==> r == Err::<(), PropChanError>(
                PropChanError::UsedSendChanError,
            ) && final(self)@ == old(self)@,
            !old(self)@.send_used ==> r == Ok::<(), PropChanError>(()) && final(self)@
                == (FutureModel { send_used: true, ..old(self)@ }),
    {
        match self.send_used {
            true => Err(PropChanError::UsedSendChanError),
            false => {
                self.send_used = true;
                Ok(())
            },
        }
    }

    /// Whether a sender has claimed the channel.
    fn check_send_used(&self) -> (b: bool)
        ensures
            b == self@.send_used,
    {
        self.send_used
    }

    /// Whether the instance came out of the constructor.
    fn check_init(&self) -> (b: bool)
        ensures
            b == self@.init,
    {
        self.init
    }
}

/// Law: a broadcast future delivers one value to everybody. On an open
/// future, a send of `x` succeeds and pins the slot at `Some(x)`; since
/// neither a receive nor a probe moves the model, every receive and every
/// `true` probe issued after the send observes exactly `x`, however many
/// there are; a probe issued before the send reports `false`; and a
/// second send is refused with `UsedSendChanError`, leaving the slot at
/// `Some(x)`.
pub proof fn lemma_broadcast_one_value<T>(m: FutureModel<T>, x: T, y: T)
    requires
        m == (FutureModel { init: true, send_used: false, slot: None::<T> }),
    ensures
        ({
            let (m1, r1) = fut_send(m, x);
            &&& r1 == Ok::<(), PropChanError>(())
            &&& m1.slot == Some(x)
            &&& fut_send(m1, y) == (m1, Err::<(), PropChanError>(PropChanError::UsedSendChanError))
            &&& fut_state(m) == PropChanState::Open
            &&& fut_state(m1) == PropChanState::Complete
        }),
{
}

} // verus!
