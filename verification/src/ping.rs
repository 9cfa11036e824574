//! A single-use rendezvous channel under its older surface.
//!
//! `Ping` offers the same strict two-party, single-use hand-off as
//! [`crate::pi_chan::PiChan`], with its own state and error vocabulary.
//! Rather than repeat the machine, it owns a `PiChan` and translates: the
//! ghost model is the inner channel's [`ChanModel`], and every contract is
//! stated over the same [`chan_send`] and [`chan_recv`] steps, with the
//! errors renamed one for one.

use vstd::prelude::*;

use crate::pi_chan::{chan_recv, chan_send, chan_state, ChanModel, PiChan, PiChanError,
    PiChanState};

verus! {

/// A diagnostic snapshot of a channel, derived from its two usage flags.
#[derive(Clone, Copy, Debug, PartialEq, Eq, Structural)]
pub enum PingState {
    /// The instance bypassed the constructor; nothing can be done with it.
    Unintialized,
    /// Neither send nor receive has been used.
    Open,
    /// A receiver has arrived and no sender has; the receiver is waiting.
    AwaitSend,
    /// A sender has arrived and no receiver has; the sender is waiting.
    AwaitRecv,
    /// A transfer was made; the channel is spent.
    Used,
}

/// The ways a channel operation can be refused; none of them changes the
/// channel.
#[derive(Clone, Copy, Debug, PartialEq, Eq, Structural)]
pub enum PingError {
    /// This instance already has a sender.
    UsedSendChanError,
    /// This instance already has a receiver.
    UsedRecvChanError,
    /// The instance bypassed the constructor.
    UninitializedChanError,
}

/// The renaming of refusals, one variant for one.
pub open spec fn ping_error(e: PiChanError) -> PingError {
    match e {
        PiChanError::UsedSendChanError => PingError::UsedSendChanError,
        PiChanError::UsedRecvChanError => PingError::UsedRecvChanError,
        PiChanError::UninitializedChanError => PingError::UninitializedChanError,
    }
}

/// The renaming applied to a send result.
pub open spec fn ping_send_result(r: Result<(), PiChanError>) -> Result<(), PingError> {
    match r {
        Ok(v) => Ok(v),
        Err(e) => Err(ping_error(e)),
    }
}

/// The renaming applied to a receive result.
pub open spec fn ping_recv_result<T>(r: Result<Option<T>, PiChanError>) -> Result<
    Option<T>,
    PingError,
> {
    match r {
        Ok(v) => Ok(v),
        Err(e) => Err(ping_error(e)),
    }
}

/// The renaming of state snapshots, one variant for one.
pub open spec fn ping_state(s: PiChanState) -> PingState {
    match s {
        PiChanState::Unintialized => PingState::Unintialized,
        PiChanState::Open => PingState::Open,
        PiChanState::AwaitSend => PingState::AwaitSend,
        PiChanState::AwaitRecv => PingState::AwaitRecv,
        PiChanState::Used => PingState::Used,
    }
}

/// A single-use rendezvous channel; its ghost model is a [`ChanModel`].
pub struct Ping<T> {
    inner: PiChan<T>,
}

impl<T> View for Ping<T> {
    type V = ChanModel<T>;

    closed spec fn view(&self) -> ChanModel<T> {
        self.inner@
    }
}

impl<T> Ping<T> {
    /// Create an open channel: constructed, both roles unclaimed, slot
    /// empty.
    pub fn new() -> (c: Ping<T>)
        ensures
            c@ == (ChanModel { init: true, send_used: false, recv_used: false, slot: None::<T> }),
    {
        Ping { inner: PiChan::new() }
    }

    /// A best-effort snapshot of the channel's state, derived from the two
    /// usage flags; diagnostic, not used for coordination.
    pub fn state(&self) -> (s: PingState)
        ensures
            s == ping_state(chan_state(self@)),
    {
        match self.inner.state() {
            PiChanState::Unintialized => PingState::Unintialized,
            PiChanState::Open => PingState::Open,
            PiChanState::AwaitSend => PingState::AwaitSend,
            PiChanState::AwaitRecv => PingState::AwaitRecv,
            PiChanState::Used => PingState::Used,
        }
    }

    /// Send `t` through the channel: the model steps by [`chan_send`],
    /// with the refusal renamed into this channel's vocabulary.
    pub fn send(&mut self, t: T) -> (r: Result<(), PingError>)
        ensures
            final(self)@ == chan_send(old(self)@, t).0,
            r == ping_send_result(chan_send(old(self)@, t).1),
    {
        match self.inner.send(t) {
            Ok(()) => Ok(()),
            Err(PiChanError::UsedSendChanError) => Err(PingError::UsedSendChanError),
            Err(PiChanError::UsedRecvChanError) => Err(PingError::UsedRecvChanError),
            Err(PiChanError::UninitializedChanError) => Err(PingError::UninitializedChanError),
        }
    }

    /// Receive the value: the model steps by [`chan_recv`], with the
    /// refusal renamed. As with the inner channel, a first receive is
    /// admitted only once the sender has delivered.
    pub fn recv(&mut self) -> (r: Result<Option<T>, PingError>)
        requires
            old(self)@.init && !old(self)@.recv_used ==> old(self)@.send_used,
        ensures
            final(self)@ == chan_recv(old(self)@).0,
            r == ping_recv_result(chan_recv(old(self)@).1),
    {
        match self.inner.recv() {
            Ok(v) => Ok(v),
            Err(PiChanError::UsedSendChanError) => Err(PingError::UsedSendChanError),
            Err(PiChanError::UsedRecvChanError) => Err(PingError::UsedRecvChanError),
            Err(PiChanError::UninitializedChanError) => Err(PingError::UninitializedChanError),
        }
    }
}

} // verus!
