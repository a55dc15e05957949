//! The run queue as the rest of the library sees it: one unbounded crossbeam
//! channel of runnables, described by the units that wait in it.
//!
//! Nothing in this file is proved. It states what `crossbeam_channel` does
//! with a channel that has one sender and one receiver, both in one hand: the
//! two ends are kept as a pair, and whoever changes the channel borrows the
//! pair for himself.

use async_task::Runnable;
use crossbeam_channel::{Receiver, SendError, Sender, TryRecvError};
use vstd::multiset::Multiset;
use vstd::prelude::*;

verus! {

/// `async_task::Runnable`: a unit of work that is ready to be run. The library
/// moves units around and never looks into one.
#[verifier::external_type_specification]
#[verifier::external_body]
#[verifier::reject_recursive_types(M)]
pub struct ExRunnable<M>(Runnable<M>);

/// `crossbeam_channel::Sender`: the end of a channel that puts messages in.
#[verifier::external_type_specification]
#[verifier::external_body]
#[verifier::reject_recursive_types(T)]
pub struct ExSender<T>(Sender<T>);

/// `crossbeam_channel::Receiver`: the end of a channel that takes messages
/// out.
#[verifier::external_type_specification]
#[verifier::external_body]
#[verifier::reject_recursive_types(T)]
pub struct ExReceiver<T>(Receiver<T>);

/// Whether `ends` are the two ends of one channel, and the only ends that it
/// has.
pub uninterp spec fn is_channel(ends: (Sender<Runnable>, Receiver<Runnable>)) -> bool;

/// The units that wait in the channel with the ends `ends`: those that were
/// sent into it and not yet received. The order in which they come out is left
/// open.
pub uninterp spec fn waiting(ends: (Sender<Runnable>, Receiver<Runnable>)) -> Multiset<Runnable>;

/// `crossbeam_channel::unbounded`: makes a channel and returns its two ends,
/// which are its only ends until one of them is cloned. Nothing waits in a
/// new channel.
#[verifier::external_body]
pub(crate) fn open() -> (ends: (Sender<Runnable>, Receiver<Runnable>))
    ensures
        is_channel(ends),
        waiting(ends) == Multiset::<Runnable>::empty(),
{
    crossbeam_channel::unbounded()
}

/// `Sender::send`: puts `unit` into the channel without blocking. A send fails
/// only on a disconnected channel, and a channel is disconnected only once its
/// last sender or its last receiver is dropped; here both ends are at hand, so
/// the send succeeds and the unit waits with those that waited before. It does
/// not panic.
#[verifier::external_body]
pub(crate) fn send(ends: &mut (Sender<Runnable>, Receiver<Runnable>), unit: Runnable) -> (r:
    Result<(), Runnable>)
    requires
        is_channel(*old(ends)),
    ensures
        r is Ok,
        is_channel(*final(ends)),
        waiting(*final(ends)) == waiting(*old(ends)).insert(unit),
    no_unwind
{
    match ends.0.send(unit) {
        Ok(()) => Ok(()),
        Err(SendError(back)) => Err(back),
    }
}

/// `Receiver::try_recv`: takes one message out of the channel without
/// blocking, or reports that the channel is empty (`TryRecvError::Empty`, or
/// `TryRecvError::Disconnected` where it is disconnected as well). A unit that
/// comes out was waiting and waits no more; nothing comes out only if nothing
/// was waiting. It does not panic.
#[verifier::external_body]
pub(crate) fn try_recv(ends: &mut (Sender<Runnable>, Receiver<Runnable>)) -> (r: Option<Runnable>)
    requires
        is_channel(*old(ends)),
    ensures
        is_channel(*final(ends)),
        match r {
            Some(unit) => waiting(*old(ends)).contains(unit) && waiting(*final(ends)) == waiting(
                *old(ends),
            ).remove(unit),
            None => waiting(*old(ends)).len() == 0 && waiting(*final(ends)) == waiting(
                *old(ends),
            ),
        },
    no_unwind
{
    match ends.1.try_recv() {
        Ok(unit) => Some(unit),
        Err(TryRecvError::Empty) => None,
        Err(TryRecvError::Disconnected) => None,
    }
}

/// `Receiver::is_empty`: whether no message waits in the channel.
#[verifier::external_body]
pub(crate) fn is_empty(ends: &(Sender<Runnable>, Receiver<Runnable>)) -> (empty: bool)
    requires
        is_channel(*ends),
    ensures
        empty == (waiting(*ends).len() == 0),
{
    ends.1.is_empty()
}

} // verus!
