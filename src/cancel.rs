use vstd::prelude::*;

verus! {

/// The id of an armed token, if any.
pub open spec fn token_of<H>(armed: Option<(u64, H)>) -> Option<u64> {
    match armed {
        Some(p) => Some(p.0),
        None => None,
    }
}

/// The handle of an armed token, if any.
pub open spec fn handle_of<H>(armed: Option<(u64, H)>) -> Option<H> {
    match armed {
        Some(p) => Some(p.1),
        None => None,
    }
}

/// Clearing token `id` when its poll ends: it is cleared only if it is the
/// armed one, and the result says whether it was.
pub open spec fn disarm_step<H>(armed: Option<(u64, H)>, id: u64) -> (Option<(u64, H)>, bool) {
    if token_of(armed) == Some(id) {
        (None, true)
    } else {
        (armed, false)
    }
}

/// Triggering whatever token is armed: its handle is taken, none is left.
pub open spec fn trigger_step<H>(armed: Option<(u64, H)>) -> (Option<(u64, H)>, Option<H>) {
    (None, handle_of(armed))
}

/// Triggering token `id`: only the armed token can be triggered; a stale id
/// takes nothing and changes nothing.
pub open spec fn trigger_token_step<H>(armed: Option<(u64, H)>, id: u64) -> (Option<(u64, H)>, Option<H>) {
    if token_of(armed) == Some(id) {
        trigger_step(armed)
    } else {
        (armed, None)
    }
}

/// The cancellation cell of one feed: at most one armed token, made of a fresh
/// id and the handle that interrupts the poll waiting under it.
///
/// Ids are handed out in increasing order, so a token that was cleared or
/// triggered is never armed again, and an operation that names a stale id
/// leaves the cell as it is.
///
/// A teardown closes the cell before it waits for the feed's slot: closing
/// triggers the armed token, and while the cell is closed no poll starts, so
/// the slot is released by the poll in flight and not taken by a later one.
/// The teardown reopens the cell once it has emptied the slot.
pub struct CancelCell<H> {
    armed: Option<(u64, H)>,
    next_id: u64,
    closing: bool,
}

impl<H> CancelCell<H> {
    /// The armed token and its handle, if any.
    pub closed spec fn armed(&self) -> Option<(u64, H)> {
        self.armed
    }

    /// Whether a teardown has closed the cell.
    pub closed spec fn closing(&self) -> bool {
        self.closing
    }

    /// The id that the next armed token receives.
    pub closed spec fn next_id(&self) -> u64 {
        self.next_id
    }

    /// The id of the armed token, if any.
    pub open spec fn token(&self) -> Option<u64> {
        token_of(self.armed())
    }

    /// Every id that was handed out lies below `next_id`.
    pub open spec fn wf(&self) -> bool {
        self.token() matches Some(t) ==> t < self.next_id()
    }

    /// A cell with no token armed.
    pub fn new() -> (r: Self)
        ensures
            r.wf(),
            r.armed() is None,
            r.next_id() == 0,
            !r.closing(),
    {
        CancelCell { armed: None, next_id: 0, closing: false }
    }

    /// Whether a teardown has closed the cell.
    pub fn is_closing(&self) -> (r: bool)
        ensures
            r == self.closing(),
    {
        self.closing
    }

    /// Whether a token is armed, that is, whether a poll is in flight.
    pub fn is_armed(&self) -> (r: bool)
        ensures
            r == self.token() is Some,
    {
        self.armed.is_some()
    }

    /// Whether every id has been handed out, so that no token can be armed.
    pub fn is_exhausted(&self) -> (r: bool)
        ensures
            r == (self.next_id() == u64::MAX),
    {
        self.next_id == u64::MAX
    }

    /// Arms a fresh token carrying `handle` and returns its id. A token that
    /// was still armed is replaced.
    pub fn arm(&mut self, handle: H) -> (id: u64)
        requires
            old(self).wf(),
            old(self).next_id() < u64::MAX,
        ensures
            final(self).wf(),
            id == old(self).next_id(),
            final(self).next_id() == id + 1,
            final(self).armed() == Some((id, handle)),
            final(self).closing() == old(self).closing(),
    {
        let id = self.next_id;
        self.armed = Some((id, handle));
        self.next_id = id + 1;
        id
    }

    /// Clears the token `id` once its poll has ended. Returns whether it was
    /// still armed; when it was not (it was triggered, or another token is
    /// armed), the cell is left as it is.
    pub fn disarm(&mut self, id: u64) -> (was_armed: bool)
        requires
            old(self).wf(),
        ensures
            final(self).wf(),
            (final(self).armed(), was_armed) == disarm_step(old(self).armed(), id),
            final(self).next_id() == old(self).next_id(),
            final(self).closing() == old(self).closing(),
    {
        let matches_id = match &self.armed {
            Some(p) => p.0 == id,
            None => false,
        };
        if matches_id {
            self.armed = None;
        }
        matches_id
    }

    fn trigger(&mut self) -> (handle: Option<H>)
        requires
            old(self).wf(),
        ensures
            final(self).wf(),
            final(self).next_id() == old(self).next_id(),
            final(self).closing() == old(self).closing(),
            (final(self).armed(), handle) == trigger_step(old(self).armed()),
    {
        match self.armed.take() {
            Some(p) => Some(p.1),
            None => None,
        }
    }

    /// Starts a teardown: takes the armed token's handle, whichever token it
    /// is, so that the caller interrupts the poll in flight, and closes the
    /// cell to new polls.
    pub fn close(&mut self) -> (handle: Option<H>)
        requires
            old(self).wf(),
        ensures
            final(self).wf(),
            final(self).next_id() == old(self).next_id(),
            final(self).closing(),
            (final(self).armed(), handle) == trigger_step(old(self).armed()),
    {
        let handle = self.trigger();
        self.closing = true;
        handle
    }

    /// Ends a teardown: new polls may start again.
    pub fn reopen(&mut self)
        requires
            old(self).wf(),
        ensures
            final(self).wf(),
            final(self).next_id() == old(self).next_id(),
            final(self).armed() == old(self).armed(),
            !final(self).closing(),
    {
        self.closing = false;
    }

    /// Takes the handle of token `id` only if that token is the armed one;
    /// for a stale or unknown id nothing is taken and the cell is unchanged.
    pub fn trigger_token(&mut self, id: u64) -> (handle: Option<H>)
        requires
            old(self).wf(),
        ensures
            final(self).wf(),
            final(self).next_id() == old(self).next_id(),
            final(self).closing() == old(self).closing(),
            (final(self).armed(), handle) == trigger_token_step(old(self).armed(), id),
    {
        let matches_id = match &self.armed {
            Some(p) => p.0 == id,
            None => false,
        };
        if matches_id {
            self.trigger()
        } else {
            None
        }
    }
}

} // verus!
