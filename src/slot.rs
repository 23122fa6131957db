use vstd::prelude::*;
use crate::error::ErrorKind;
use crate::cancel::{disarm_step, CancelCell};

verus! {

/// What the wait of a poll produced.
pub enum Wake<I> {
    /// The patch source delivered an item.
    Item(I),
    /// The patch source ended.
    Ended,
    /// The wait was interrupted through the poll's cancel token.
    Aborted,
}

/// Subscribing: refused while a source is held; otherwise the resolved source
/// is stored, or the resolution's error is reported and the slot kept empty.
pub open spec fn subscribe_step<S>(source: Option<S>, resolved: Result<S, ErrorKind>) -> (Option<S>, Result<(), ErrorKind>) {
    if source is Some {
        (source, Err(ErrorKind::AlreadySubscribed))
    } else {
        match resolved {
            Ok(s) => (Some(s), Ok(())),
            Err(e) => (source, Err(e)),
        }
    }
}

/// Starting a poll: on an empty slot the poll fails with `NotSubscribed`;
/// while a teardown has the cell closed it fails with `Cancelled` without
/// waiting; in either case nothing changes. Otherwise a fresh token carrying
/// `handle` is armed with the id `next_id`, and the ids move on by one.
pub open spec fn begin_poll_step<S, H>(
    source: Option<S>,
    armed: Option<(u64, H)>,
    next_id: u64,
    closing: bool,
    handle: H,
) -> (Option<(u64, H)>, u64, Result<u64, ErrorKind>) {
    if source is None {
        (armed, next_id, Err(ErrorKind::NotSubscribed))
    } else if closing {
        (armed, next_id, Err(ErrorKind::Cancelled))
    } else {
        (Some((next_id, handle)), (next_id + 1) as u64, Ok(next_id))
    }
}

/// Ending a poll. A poll whose token was no longer armed was cancelled, and
/// an item that came with the cancellation is discarded; an item is handed
/// on; the end of the source discards it and terminates the subscription.
pub open spec fn settle_step<S, I>(source: Option<S>, wake: Wake<I>, still_armed: bool) -> (Option<S>, Result<I, ErrorKind>) {
    if !still_armed {
        (source, Err(ErrorKind::Cancelled))
    } else {
        match wake {
            Wake::Item(i) => (source, Ok(i)),
            Wake::Ended => (None, Err(ErrorKind::StreamTerminated)),
            Wake::Aborted => (source, Err(ErrorKind::Cancelled)),
        }
    }
}

/// Unsubscribing: the live patch source, if any, is discarded.
pub open spec fn unsubscribe_step<S>(source: Option<S>) -> Option<S> {
    None
}

/// For a feed that delivers batches, an empty batch ends the feed just as
/// the end of the source does: both are read as `Ended`.
pub open spec fn batch_wake<P>(wake: Wake<Vec<P>>) -> Wake<Vec<P>> {
    match wake {
        Wake::Item(b) => if b@.len() == 0 {
            Wake::Ended
        } else {
            Wake::Item(b)
        },
        Wake::Ended => Wake::Ended,
        Wake::Aborted => Wake::Aborted,
    }
}

/// The subscription slot of one feed kind: it holds at most one live patch
/// source, which it owns.
pub struct Slot<S> {
    source: Option<S>,
}

impl<S> Slot<S> {
    /// The live patch source, if any.
    pub closed spec fn source(&self) -> Option<S> {
        self.source
    }

    /// Whether the slot holds a live subscription.
    pub open spec fn subscribed(&self) -> bool {
        self.source() is Some
    }

    /// An empty slot.
    pub fn new() -> (r: Self)
        ensures
            r.source() is None,
    {
        Slot { source: None }
    }

    /// Whether the slot holds a live subscription.
    pub fn is_subscribed(&self) -> (r: bool)
        ensures
            r == self.subscribed(),
    {
        self.source.is_some()
    }

    /// Checks, before a feed is resolved, that the slot is free.
    pub fn check_vacant(&self) -> (r: Result<(), ErrorKind>)
        ensures
            r == (if self.subscribed() {
                Err::<(), ErrorKind>(ErrorKind::AlreadySubscribed)
            } else {
                Ok(())
            }),
    {
        if self.source.is_some() {
            Err(ErrorKind::AlreadySubscribed)
        } else {
            Ok(())
        }
    }

    /// Stores the patch source that resolving the feed produced.
    pub fn subscribe(&mut self, resolved: Result<S, ErrorKind>) -> (r: Result<(), ErrorKind>)
        ensures
            (final(self).source(), r) == subscribe_step(old(self).source(), resolved),
    {
        if self.source.is_some() {
            return Err(ErrorKind::AlreadySubscribed);
        }
        match resolved {
            Ok(s) => {
                self.source = Some(s);
                Ok(())
            },
            Err(e) => Err(e),
        }
    }

    /// Lends the live patch source to a poll, which waits on it while the
    /// slot stays borrowed. An empty slot fails with `NotSubscribed` and is
    /// left as it is.
    pub fn poll_source(&mut self) -> (r: Result<&mut S, ErrorKind>)
        ensures
            old(self).source() is None ==> r == Err::<&mut S, ErrorKind>(ErrorKind::NotSubscribed)
                && final(self).source() is None,
            old(self).source() is Some ==> r is Ok && *r->Ok_0 == old(self).source()->0
                && final(self).source() == Some(*final(r->Ok_0)),
    {
        match self.source.as_mut() {
            Some(s) => Ok(s),
            None => Err(ErrorKind::NotSubscribed),
        }
    }

    /// Starts a poll: on a subscribed slot, arms a fresh token in `cell` with
    /// the handle that interrupts the poll's wait, and returns its id. An
    /// empty slot fails with `NotSubscribed`, a closed cell with `Cancelled`,
    /// and then neither the slot nor the cell changes.
    pub fn begin_poll<H>(&self, cell: &mut CancelCell<H>, handle: H) -> (r: Result<u64, ErrorKind>)
        requires
            old(cell).wf(),
            old(cell).next_id() < u64::MAX,
        ensures
            final(cell).wf(),
            r is Err ==> *final(cell) == *old(cell),
            final(cell).closing() == old(cell).closing(),
            (final(cell).armed(), final(cell).next_id(), r) == begin_poll_step(
                self.source(),
                old(cell).armed(),
                old(cell).next_id(),
                old(cell).closing(),
                handle,
            ),
    {
        if self.source.is_none() {
            return Err(ErrorKind::NotSubscribed);
        }
        if cell.is_closing() {
            return Err(ErrorKind::Cancelled);
        }
        Ok(cell.arm(handle))
    }

    /// Ends the poll that armed token `id`: the token is cleared if it is
    /// still armed, and the slot settles the wait's result accordingly.
    pub fn finish_poll<H, I>(&mut self, cell: &mut CancelCell<H>, id: u64, wake: Wake<I>) -> (r: Result<I, ErrorKind>)
        requires
            old(cell).wf(),
        ensures
            final(cell).wf(),
            final(cell).next_id() == old(cell).next_id(),
            final(cell).closing() == old(cell).closing(),
            final(cell).armed() == disarm_step(old(cell).armed(), id).0,
            (final(self).source(), r) == settle_step(
                old(self).source(),
                wake,
                disarm_step(old(cell).armed(), id).1,
            ),
    {
        let still_armed = cell.disarm(id);
        self.settle(wake, still_armed)
    }

    /// Ends the poll that armed token `id` on a feed that delivers batches.
    pub fn finish_poll_batch<H, P>(&mut self, cell: &mut CancelCell<H>, id: u64, wake: Wake<Vec<P>>) -> (r: Result<Vec<P>, ErrorKind>)
        requires
            old(cell).wf(),
        ensures
            final(cell).wf(),
            final(cell).next_id() == old(cell).next_id(),
            final(cell).closing() == old(cell).closing(),
            final(cell).armed() == disarm_step(old(cell).armed(), id).0,
            (final(self).source(), r) == settle_step(
                old(self).source(),
                batch_wake(wake),
                disarm_step(old(cell).armed(), id).1,
            ),
    {
        let still_armed = cell.disarm(id);
        self.settle_batch(wake, still_armed)
    }

    /// Ends a poll on a feed that delivers single patches. `still_armed`
    /// says whether the poll's token was still armed when its wait ended.
    pub fn settle<I>(&mut self, wake: Wake<I>, still_armed: bool) -> (r: Result<I, ErrorKind>)
        ensures
            (final(self).source(), r) == settle_step(old(self).source(), wake, still_armed),
    {
        if !still_armed {
            return Err(ErrorKind::Cancelled);
        }
        match wake {
            Wake::Item(i) => Ok(i),
            Wake::Ended => {
                self.source = None;
                Err(ErrorKind::StreamTerminated)
            },
            Wake::Aborted => Err(ErrorKind::Cancelled),
        }
    }

    /// Ends a poll on a feed that delivers batches of patches: an empty
    /// batch terminates the subscription as the end of the source does.
    pub fn settle_batch<P>(&mut self, wake: Wake<Vec<P>>, still_armed: bool) -> (r: Result<Vec<P>, ErrorKind>)
        ensures
            (final(self).source(), r) == settle_step(old(self).source(), batch_wake(wake), still_armed),
    {
        let wake = match wake {
            Wake::Item(b) => if b.len() == 0 {
                Wake::Ended
            } else {
                Wake::Item(b)
            },
            Wake::Ended => Wake::Ended,
            Wake::Aborted => Wake::Aborted,
        };
        self.settle(wake, still_armed)
    }

    /// Ends a teardown: discards the live patch source, if any, and reopens
    /// `cell`, which the teardown closed before it took the slot.
    pub fn unsubscribe<H>(&mut self, cell: &mut CancelCell<H>)
        requires
            old(cell).wf(),
        ensures
            final(self).source() == unsubscribe_step(old(self).source()),
            final(cell).wf(),
            final(cell).armed() == old(cell).armed(),
            final(cell).next_id() == old(cell).next_id(),
            !final(cell).closing(),
    {
        self.source = None;
        cell.reopen();
    }
}

} // verus!
