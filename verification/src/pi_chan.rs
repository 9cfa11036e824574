//! A strict two-party, single-use rendezvous channel.
//!
//! A `PiChan` hands exactly one value from exactly one sender to exactly
//! one receiver. Each side may claim its role at most once: a second
//! `send` or a second `recv` on the same instance is refused with a typed
//! error and leaves the channel untouched. The ghost model of a channel —
//! its two usage flags and its value slot — is a [`ChanModel`], and the
//! contracts of [`PiChan::send`] and [`PiChan::recv`] say that the
//! operations step the model by [`chan_send`] and [`chan_recv`] exactly.
//!
//! In the concurrent realization neither party's call returns until both
//! have arrived; with a single owner driving the machine that suspension
//! has no peer to end it, so a receive is only admitted once the sender
//! has delivered, and a send's wait for the receiver's arrival has no
//! observable effect on the exchanged value.

use vstd::prelude::*;

verus! {

/// A diagnostic snapshot of a channel, derived from its two usage flags.
#[derive(Clone, Copy, Debug, PartialEq, Eq, Structural)]
pub enum PiChanState {
    /// The instance bypassed the constructor; nothing can be done with it.
    Unintialized,
    /// Neither send nor receive has been used.
    Open,
    /// A receiver has arrived and no sender has; the receiver is waiting.
    AwaitSend,
    /// A sender has arrived and no receiver has; the sender is waiting.
    AwaitRecv,
    /// A transfer was made; the channel is spent.
    Used,
}

/// The ways a channel operation can be refused. Refusals are ordinary
/// outcomes when several parties race for the same role; none of them
/// changes the channel.
#[derive(Clone, Copy, Debug, PartialEq, Eq, Structural)]
pub enum PiChanError {
    /// This instance already has a sender.
    UsedSendChanError,
    /// This instance already has a receiver.
    UsedRecvChanError,
    /// The instance bypassed the constructor.
    UninitializedChanError,
}

/// The ghost model of a rendezvous channel: the defensive construction
/// flag, one single-use flag per role, and the value slot.
pub struct ChanModel<T> {
    /// The instance was built by the constructor.
    pub init: bool,
    /// A sender has claimed the channel.
    pub send_used: bool,
    /// A receiver has claimed the channel.
    pub recv_used: bool,
    /// The value in flight: filled by the unique sender, drained by the
    /// unique receiver.
    pub slot: Option<T>,
}

/// How `send` steps the model: the new model and the result handed back.
pub open spec fn chan_send<T>(m: ChanModel<T>, t: T) -> (ChanModel<T>, Result<
    (),
    PiChanError,
>) {
    if !m.init {
        (m, Err(PiChanError::UninitializedChanError))
    } else if m.send_used {
        (m, Err(PiChanError::UsedSendChanError))
    } else {
        (
            ChanModel { init: m.init, send_used: true, recv_used: m.recv_used, slot: Some(t) },
            Ok(()),
        )
    }
}

/// How `recv` steps the model: the new model and the result handed back.
pub open spec fn chan_recv<T>(m: ChanModel<T>) -> (ChanModel<T>, Result<
    Option<T>,
    PiChanError,
>) {
    if !m.init {
        (m, Err(PiChanError::UninitializedChanError))
    } else if m.recv_used {
        (m, Err(PiChanError::UsedRecvChanError))
    } else {
        (
            ChanModel { init: m.init, send_used: m.send_used, recv_used: true, slot: None },
            Ok(m.slot),
        )
    }
}

/// The state read off a model by `state`.
pub open spec fn chan_state<T>(m: ChanModel<T>) -> PiChanState {
    if !m.init {
        PiChanState::Unintialized
    } else if m.send_used && m.recv_used {
        PiChanState::Used
    } else if m.send_used {
        PiChanState::AwaitRecv
    } else if m.recv_used {
        PiChanState::AwaitSend
    } else {
        PiChanState::Open
    }
}

/// A single-use rendezvous channel; its ghost model is a [`ChanModel`].
pub struct PiChan<T> {
    init: bool,
    send_used: bool,
    recv_used: bool,
    val: Option<T>,
}

impl<T> View for PiChan<T> {
    type V = ChanModel<T>;

    closed spec fn view(&self) -> ChanModel<T> {
        ChanModel {
            init: self.init,
            send_used: self.send_used,
            recv_used: self.recv_used,
            slot: self.val,
        }
    }
}

impl<T> PiChan<T> {
    /// Create an open channel: constructed, both roles unclaimed, slot
    /// empty.
    pub fn new() -> (c: PiChan<T>)
        ensures
            c@ == (ChanModel { init: true, send_used: false, recv_used: false, slot: None::<T> }),
    {
        PiChan { init: true, send_used: false, recv_used: false, val: None }
    }

    /// A best-effort snapshot of the channel's state, derived from the two
    /// usage flags. It is diagnostic: a holder may read a stale snapshot,
    /// but a flag never flips back, so the reading never runs backwards.
    pub fn state(&self) -> (s: PiChanState)
        ensures
            s == chan_state(self@),
    {
        match self.check_init() {
            false => PiChanState::Unintialized,
            _ => match self.check_send_used() {
                true => match self.check_recv_used() {
                    true => PiChanState::Used,
                    _ => PiChanState::AwaitRecv,
                },
                _ => match self.check_recv_used() {
                    true => PiChanState::AwaitSend,
                    _ => PiChanState::Open,
                },
            },
        }
    }

    /// Send `t` through the channel.
    ///
    /// The first sender deposits `t` into the slot and claims the send
    /// side for good; any later sender is refused with `UsedSendChanError`
    /// and the channel is left exactly as it was. In the concurrent
    /// realization the winning call also waits for the receiver to arrive
    /// before returning; that wait moves no data, so the model steps here
    /// in one piece.
    pub fn send(&mut self, t: T) -> (r: Result<(), PiChanError>)
        ensures
            (final(self)@, r) == chan_send(old(self)@, t),
    {
        match self.check_init() {
            false => Err(PiChanError::UninitializedChanError),
            true => {
                let r = self.set_send_used();
                match r {
                    Err(x) => Err(x),
                    Ok(()) => {
                        self.val = Some(t);
                        Ok(())
                    },
                }
            },
        }
    }

    /// Receive the value.
    ///
    /// The first receiver drains the slot and claims the receive side for
    /// good; any later receiver is refused with `UsedRecvChanError`. A
    /// first receive suspends until the sender has delivered, so with a
    /// single owner it is only admitted once that has happened; the
    /// refusals return without waiting and need no such condition.
    pub fn recv(&mut self) -> (r: Result<Option<T>, PiChanError>)
        requires
            old(self)@.init && !old(self)@.recv_used ==> old(self)@.send_used,
        ensures
            (final(self)@, r) == chan_recv(old(self)@),
    {
        match self.check_init() {
            false => Err(PiChanError::UninitializedChanError),
            true => {
                let r = self.set_recv_used();
                match r {
                    Err(x) => Err(x),
                    Ok(()) => Ok(self.val.take()),
                }
            },
        }
    }

    /// Claim the send side: flips the send flag the one time it can be.
    fn set_send_used(&mut self) -> (r: Result<(), PiChanError>)
        ensures
            old(self)@.send_used ==> r == Err::<(), PiChanError>(PiChanError::UsedSendChanError)
                && final(self)@ == old(self)@,
            !old(self)@.send_used ==> r == Ok::<(), PiChanError>(()) && final(self)@ == (ChanModel {
                send_used: true,
                ..old(self)@
            }),
    {
        match self.send_used {
            true => Err(PiChanError::UsedSendChanError),
            false => {
                self.send_used = true;
                Ok(())
            },
        }
    }

    /// Claim the receive side: flips the receive flag the one time it can
    /// be.
    fn set_recv_used(&mut self) -> (r: Result<(), PiChanError>)
        ensures
            old(self)@.recv_used ==> r == Err::<(), PiChanError>(PiChanError::UsedRecvChanError)
                && final(self)@ == old(self)@,
            !old(self)@.recv_used ==> r == Ok::<(), PiChanError>(()) && final(self)@ == (ChanModel {
                recv_used: true,
                ..old(self)@
            }),
    {
        match self.recv_used {
            true => Err(PiChanError::UsedRecvChanError),
            false => {
                self.recv_used = true;
                Ok(())
            },
        }
    }

    /// Whether a sender has claimed the channel.
    fn check_send_used(&self) -> (b: bool)
        ensures
            b == self@.send_used,
    {
        self.send_used
    }

    /// Whether a receiver has claimed the channel.
    fn check_recv_used(&self) -> (b: bool)
        ensures
            b == self@.recv_used,
    {
        self.recv_used
    }

    /// Whether the instance came out of the constructor.
    fn check_init(&self) -> (b: bool)
        ensures
            b == self@.init,
    {
        self.init
    }
}

/// Law: a rendezvous delivers its value exactly once. On an open channel,
/// a send of `x` succeeds; the receive that follows it returns `Some(x)`
/// and drains the slot, so no later receive can see the value again; a
/// second send is refused with `UsedSendChanError` and a second receive
/// with `UsedRecvChanError`, and neither refusal moves the model.
pub proof fn lemma_rendezvous_exactly_once<T>(m: ChanModel<T>, x: T, y: T)
    requires
        m == (ChanModel { init: true, send_used: false, recv_used: false, slot: None::<T> }),
    ensures
        ({
            let (m1, r1) = chan_send(m, x);
            let (m2, r2) = chan_recv(m1);
            &&& r1 == Ok::<(), PiChanError>(())
            &&& r2 == Ok::<Option<T>, PiChanError>(Some(x))
            &&& m2.slot is None
            &&& chan_send(m1, y) == (m1, Err::<(), PiChanError>(PiChanError::UsedSendChanError))
            &&& chan_send(m2, y) == (m2, Err::<(), PiChanError>(PiChanError::UsedSendChanError))
            &&& chan_recv(m2) == (m2, Err::<Option<T>, PiChanError>(PiChanError::UsedRecvChanError))
            &&& chan_state(m2) == PiChanState::Used
        }),
{
}

} // verus!
