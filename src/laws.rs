use vstd::prelude::*;
use crate::error::ErrorKind;
use crate::cancel::{disarm_step, handle_of, token_of, trigger_step, trigger_token_step};
use crate::client::{teardown_step, Teardown};
use crate::login::{login_next, login_trace, LoginEvent, LoginPhase, StoredSession};
use crate::slot::{begin_poll_step, settle_step, subscribe_step, unsubscribe_step, Wake};

verus! {

/// The state of one feed, as its slot and its cancel cell show it together.
pub enum FeedState {
    /// No live subscription.
    Unsubscribed,
    /// A live subscription and no poll in flight.
    Idle,
    /// A live subscription and a poll in flight under its armed token.
    Polling,
}

/// The state of a feed whose slot holds `source` and whose cell holds
/// `armed`. It is meaningful where `coherent` holds.
pub open spec fn feed_state<S, H>(source: Option<S>, armed: Option<(u64, H)>) -> FeedState {
    if source is None {
        FeedState::Unsubscribed
    } else if armed is None {
        FeedState::Idle
    } else {
        FeedState::Polling
    }
}

/// A token is armed only while the slot holds a live subscription.
pub open spec fn coherent<S, H>(source: Option<S>, armed: Option<(u64, H)>) -> bool {
    armed is Some ==> source is Some
}

/// One poll cycle on a feed with no poll in flight and no teardown under
/// way. On a subscribed feed, starting the poll arms a fresh token and moves
/// the feed to `Polling`; ending it under that token clears the token, and
/// the feed is `Idle` again after a patch or a cancellation, or
/// `Unsubscribed` once the source has ended. Every state on the way is
/// coherent. On an unsubscribed feed the poll fails with `NotSubscribed`
/// and changes nothing.
pub proof fn poll_cycle<S, H, I>(
    source: Option<S>,
    armed: Option<(u64, H)>,
    next_id: u64,
    handle: H,
    wake: Wake<I>,
)
    requires
        armed is None,
    ensures
        ({
            let (armed1, next1, r) = begin_poll_step(source, armed, next_id, false, handle);
            &&& source is None ==> r == Err::<u64, ErrorKind>(ErrorKind::NotSubscribed)
                && armed1 == armed && next1 == next_id
            &&& source is Some ==> {
                let id = r->Ok_0;
                let (armed2, still_armed) = disarm_step(armed1, id);
                let (source2, out) = settle_step(source, wake, still_armed);
                &&& r == Ok::<u64, ErrorKind>(next_id)
                &&& coherent(source, armed1)
                &&& feed_state(source, armed1) == FeedState::Polling
                &&& still_armed && armed2 is None
                &&& coherent(source2, armed2)
                &&& wake is Ended ==> feed_state(source2, armed2) == FeedState::Unsubscribed
                    && out == Err::<I, ErrorKind>(ErrorKind::StreamTerminated)
                &&& wake !is Ended ==> feed_state(source2, armed2) == FeedState::Idle
            }
        }),
{
}

/// Every operation keeps a feed coherent: subscribing, starting a poll,
/// ending the poll under its own token, and the teardown that triggers the
/// token before it empties the slot.
pub proof fn operations_keep_feeds_coherent<S, H, I>(
    source: Option<S>,
    armed: Option<(u64, H)>,
    next_id: u64,
    resolved: Result<S, ErrorKind>,
    handle: H,
    id: u64,
    wake: Wake<I>,
)
    requires
        coherent(source, armed),
    ensures
        coherent(subscribe_step(source, resolved).0, armed),
        forall|closing: bool| coherent(source, #[trigger] begin_poll_step(source, armed, next_id, closing, handle).0),
        (armed is None || token_of(armed) == Some(id)) ==> ({
            let (armed1, still_armed) = disarm_step(armed, id);
            coherent(settle_step(source, wake, still_armed).0, armed1)
        }),
        coherent(unsubscribe_step(source), trigger_step(armed).0),
{
}

/// Subscribing twice with no unsubscribe in between: once the first call has
/// left a subscription in the slot (it succeeded, or the slot was taken
/// already), the second fails with `AlreadySubscribed` and changes nothing.
pub proof fn subscribe_twice_refused<S>(
    source: Option<S>,
    first: Result<S, ErrorKind>,
    second: Result<S, ErrorKind>,
)
    ensures
        ({
            let (after_first, r1) = subscribe_step(source, first);
            (r1 is Ok || source is Some) ==> subscribe_step(after_first, second) == (
                after_first,
                Err::<(), ErrorKind>(ErrorKind::AlreadySubscribed),
            )
        }),
{
}

/// A poll that waits under token `t` is released by an unsubscribe or a
/// reset. Closing the cell hands over exactly that poll's handle, so its wait
/// can be interrupted without the slot; the poll then finds its token no
/// longer armed and, whatever its wait produced, fails with `Cancelled` and
/// leaves the slot to the teardown. A poll that starts while the cell is
/// closed fails with `Cancelled` at once, arming nothing, so no later poll
/// holds the slot either. The teardown then empties the slot, and a later
/// trigger of the stale token `t` takes nothing.
pub proof fn teardown_cancels_poll<S, H, I>(
    armed: Option<(u64, H)>,
    t: u64,
    source: Option<S>,
    wake: Wake<I>,
    next_id: u64,
    late_handle: H,
)
    requires
        token_of(armed) == Some(t),
    ensures
        ({
            let (after_close, handle) = trigger_step(armed);
            &&& handle is Some
            &&& handle == handle_of(armed)
            &&& disarm_step(after_close, t) == (after_close, false)
            &&& settle_step(source, wake, false) == (source, Err::<I, ErrorKind>(
                ErrorKind::Cancelled,
            ))
            &&& source is Some ==> begin_poll_step(source, after_close, next_id, true, late_handle)
                == (after_close, next_id, Err::<u64, ErrorKind>(ErrorKind::Cancelled))
            &&& unsubscribe_step(settle_step(source, wake, false).0) is None
            &&& trigger_token_step(after_close, t) == (after_close, None::<H>)
        }),
{
}

/// Resetting twice in immediate succession: the first reset leaves both
/// slots unsubscribed, no token armed and no session. The second then has
/// no poll to interrupt and no sync engine to stop, so nothing in it can
/// fail, and it leaves the same empty state.
pub proof fn reset_twice_idempotent<C, E, S, T, H, G>(
    client: Option<C>,
    engine: Option<E>,
    timeline: Option<S>,
    timeline_armed: Option<(u64, H)>,
    roomlist: Option<T>,
    roomlist_armed: Option<(u64, G)>,
)
    ensures
        ({
            let (ta1, _) = trigger_step(timeline_armed);
            let (ra1, _) = trigger_step(roomlist_armed);
            let t1 = unsubscribe_step(timeline);
            let r1 = unsubscribe_step(roomlist);
            let (c1, e1, _) = teardown_step(client, engine);
            &&& ta1 is None && ra1 is None && t1 is None && r1 is None
            &&& c1 is None && e1 is None
            &&& trigger_step(ta1) == (None::<(u64, H)>, None::<H>)
            &&& trigger_step(ra1) == (None::<(u64, G)>, None::<G>)
            &&& unsubscribe_step(t1) is None && unsubscribe_step(r1) is None
            &&& teardown_step(c1, e1) == (None::<C>, None::<E>, Teardown::<C, E> {
                engine: None,
                client: None,
            })
        }),
{
}

/// Phases from which a login only moves on to starting the sync engine and
/// ending.
pub open spec fn past_authentication(phase: LoginPhase) -> bool {
    phase is StartSync || phase is Done || phase is Failed
}

proof fn lemma_stays_past_authentication(phase: LoginPhase, events: Seq<LoginEvent>)
    requires
        past_authentication(phase),
    ensures
        forall|i: int| 0 <= i < login_trace(phase, events).len() ==> past_authentication(
            #[trigger] login_trace(phase, events)[i],
        ),
        login_trace(phase, events).len() == events.len(),
    decreases events.len(),
{
    if events.len() > 0 {
        let next = login_next(phase, events[0]);
        lemma_stays_past_authentication(next, events.drop_first());
    }
}

/// A persisted session is restored without fresh authentication: when the
/// client is built, the store holds a decodable session and the client
/// accepts it, the login goes on to start the sync engine and never enters
/// the authentication phase, whatever comes after.
pub proof fn restored_session_skips_authentication(rest: Seq<LoginEvent>)
    ensures
        ({
            let events = seq![
                LoginEvent::Built(Ok(())),
                LoginEvent::SessionRead(StoredSession::Found),
                LoginEvent::Restored(true),
            ] + rest;
            let trace = login_trace(LoginPhase::BuildClient, events);
            &&& trace[2] == LoginPhase::StartSync
            &&& forall|i: int| 0 <= i < trace.len() ==> #[trigger] trace[i] != LoginPhase::Authenticate
        }),
{
    let events = seq![
        LoginEvent::Built(Ok(())),
        LoginEvent::SessionRead(StoredSession::Found),
        LoginEvent::Restored(true),
    ] + rest;
    let e1 = events.drop_first();
    let e2 = e1.drop_first();
    let e3 = e2.drop_first();
    assert(e3 =~= rest);
    assert(events[0] == LoginEvent::Built(Ok(())));
    assert(e1[0] == LoginEvent::SessionRead(StoredSession::Found));
    assert(e2[0] == LoginEvent::Restored(true));
    lemma_stays_past_authentication(LoginPhase::StartSync, rest);
    let tail = login_trace(LoginPhase::StartSync, rest);
    let t2 = login_trace(LoginPhase::Restore, e2);
    let t1 = login_trace(LoginPhase::ReadSession, e1);
    let trace = login_trace(LoginPhase::BuildClient, events);
    assert(t2 == seq![LoginPhase::StartSync] + tail);
    assert(t1 == seq![LoginPhase::Restore] + t2);
    assert(trace == seq![LoginPhase::ReadSession] + t1);
    assert(trace =~= seq![LoginPhase::ReadSession, LoginPhase::Restore, LoginPhase::StartSync] + tail);
    assert forall|i: int| 0 <= i < trace.len() implies #[trigger] trace[i] != LoginPhase::Authenticate by {
        if i >= 3 {
            assert(trace[i] == tail[i - 3]);
        }
    }
}

} // verus!
