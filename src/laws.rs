//! Properties of the session that hold over every run, proved over the model.
use vstd::prelude::*;

use crate::credential::{lists_id, CredentialView};
use crate::error::FidoError;
use crate::session::{
    complete_next, submit_next, CallView, IntentView, LockState, Notice, ReplyView, SessionView,
    StepView, MIN_PIN_LENGTH_FLOOR,
};

verus! {

/// What can happen to a session: an intent is submitted, or a device call answers.
pub enum Event {
    Submit(IntentView),
    Reply(ReplyView),
}

/// The session after one event.
pub open spec fn after(s: SessionView, e: Event) -> SessionView {
    match e {
        Event::Submit(i) => submit_next(s, i).0,
        Event::Reply(r) => complete_next(s, r).0,
    }
}

/// The session reached from a new one by a run of events.
pub open spec fn run(events: Seq<Event>) -> SessionView
    decreases events.len(),
{
    if events.len() == 0 {
        SessionView::initial()
    } else {
        after(run(events.drop_last()), events.last())
    }
}

/// Every event keeps the session's invariant.
pub proof fn event_keeps_invariant(s: SessionView, e: Event)
    requires
        s.wf(),
    ensures
        after(s, e).wf(),
{
    match e {
        Event::Submit(i) => {
            if !s.in_flight() && i is Lock {
                assert(submit_next(s, i).0.credentials =~= Seq::<CredentialView>::empty());
            }
        },
        Event::Reply(r) => {
            assert(s.with_pending(None).locked().credentials =~= Seq::<CredentialView>::empty());
        },
    }
}

/// Every session reachable from a new one satisfies the invariant.
pub proof fn reachable_sessions_are_well_formed(events: Seq<Event>)
    ensures
        run(events).wf(),
    decreases events.len(),
{
    if events.len() == 0 {
        assert(SessionView::initial().wf());
    } else {
        reachable_sessions_are_well_formed(events.drop_last());
        event_keeps_invariant(run(events.drop_last()), events.last());
    }
}

/// In every reachable session a PIN is cached exactly when the session is
/// unlocked, and credentials are held only while it is unlocked.
pub proof fn secret_cached_iff_unlocked(events: Seq<Event>)
    ensures
        run(events).cached_secret is Some <==> run(events).lock_state == LockState::Unlocked,
        run(events).lock_state != LockState::Unlocked ==> run(events).credentials.len() == 0,
{
    reachable_sessions_are_well_formed(events);
}

/// While a device call is in flight, every submitted intent is refused as busy
/// and the session is left exactly as it was.
pub proof fn busy_session_refuses_without_effect(s: SessionView, i: IntentView)
    requires
        s.in_flight(),
    ensures
        submit_next(s, i) == (s, StepView::Done(Err(FidoError::SessionBusy))),
{
}

/// A device call is issued only when none is in flight (or as the follow-up
/// of the one that just answered), and it is then the one in flight: at most
/// one call is ever outstanding.
pub proof fn calls_are_single_flight(s: SessionView, i: IntentView, r: ReplyView)
    requires
        s.wf(),
    ensures
        submit_next(s, i).1 is Call ==> !s.in_flight() && submit_next(s, i).0.in_flight(),
        !(submit_next(s, i).1 is Call) ==> submit_next(s, i).0.pending == s.pending,
        complete_next(s, r).1 is Call ==> s.accepts(r) && complete_next(s, r).0.in_flight(),
        !(complete_next(s, r).1 is Call) && s.accepts(r) ==> !complete_next(s, r).0.in_flight(),
{
}

/// Unlocking an unlocked session succeeds at once, makes no device call, and
/// leaves the session (its cached PIN and credentials) as it was.
pub proof fn unlock_when_unlocked_is_idempotent(s: SessionView, pin: Seq<char>)
    requires
        s.wf(),
        s.lock_state == LockState::Unlocked,
        !s.in_flight(),
    ensures
        submit_next(s, IntentView::Unlock { pin }) == (s, StepView::Done(Ok(Notice::Unlocked))),
{
}

/// A deletion that succeeds is followed by a listing with the same cached PIN,
/// and the session's credentials become exactly that listing; so the deleted
/// id is gone whenever the device no longer lists it.
pub proof fn delete_reconciles_with_device(
    s: SessionView,
    id: Seq<char>,
    listing: Seq<CredentialView>,
)
    requires
        s.wf(),
        s.lock_state == LockState::Unlocked,
        !s.in_flight(),
    ensures
        ({
            let (s1, step1) = submit_next(s, IntentView::Delete { id });
            let (s2, step2) = complete_next(s1, ReplyView::Finished(Ok(())));
            let (s3, step3) = complete_next(s2, ReplyView::Listed(Ok(listing)));
            &&& step1 == StepView::Call(
                CallView::DeleteCredential { pin: s.cached_secret->Some_0, id },
            )
            &&& step2 == StepView::Call(CallView::ListCredentials { pin: s.cached_secret->Some_0 })
            &&& step3 == StepView::Done(Ok(Notice::CredentialDeleted { relist_error: None }))
            &&& s3.credentials == listing
            &&& s3.lock_state == LockState::Unlocked
            &&& s3.cached_secret == s.cached_secret
            &&& !s3.in_flight()
            &&& (!lists_id(listing, id) ==> !lists_id(s3.credentials, id))
        }),
{
}

/// A minimum PIN length under the floor is refused locally, with no device
/// call and no change; one at or above it is forwarded to the device.
pub proof fn min_pin_length_floor(s: SessionView, pin: Seq<char>, length: u8)
    requires
        !s.in_flight(),
    ensures
        length < MIN_PIN_LENGTH_FLOOR ==> submit_next(s, IntentView::SetMinPinLength { pin, length })
            == (s, StepView::Done(Err(FidoError::InvalidRequest))),
        length >= MIN_PIN_LENGTH_FLOOR ==> submit_next(
            s,
            IntentView::SetMinPinLength { pin, length },
        ).1 == StepView::Call(CallView::SetMinPinLength { pin, length }),
{
}

/// A PIN change that succeeds leaves the session locked, with no cached PIN,
/// whatever was cached before.
pub proof fn pin_change_locks_session(
    s: SessionView,
    current_pin: Option<Seq<char>>,
    new_pin: Seq<char>,
)
    requires
        s.wf(),
        !s.in_flight(),
    ensures
        ({
            let (s1, step1) = submit_next(s, IntentView::ChangePin { current_pin, new_pin });
            let (s2, _) = complete_next(s1, ReplyView::Finished(Ok(())));
            &&& step1 == StepView::Call(CallView::ChangePin { current_pin, new_pin })
            &&& s2.lock_state == LockState::Locked
            &&& s2.cached_secret is None
            &&& s2.credentials.len() == 0
            &&& !s2.in_flight()
        }),
{
}

/// An unlock that the device refuses leaves the session locked, with no PIN
/// cached and no credentials, and reports the device's error.
pub proof fn failed_unlock_stays_locked(s: SessionView, pin: Seq<char>, e: FidoError)
    requires
        s.wf(),
        s.lock_state == LockState::Locked,
        !s.in_flight(),
    ensures
        ({
            let (s1, _) = submit_next(s, IntentView::Unlock { pin });
            let (s2, step2) = complete_next(s1, ReplyView::Listed(Err(e)));
            &&& step2 == StepView::Done(Err::<Notice, FidoError>(e))
            &&& s2.lock_state == LockState::Locked
            &&& s2.cached_secret is None
            &&& s2.credentials.len() == 0
            &&& !s2.in_flight()
        }),
{
}

/// A deletion refused because the cached PIN is no longer valid (or because
/// the device is gone) ends the session.
pub proof fn expired_pin_ends_session(s: SessionView, id: Seq<char>, e: FidoError)
    requires
        s.wf(),
        s.lock_state == LockState::Unlocked,
        !s.in_flight(),
        e.invalidates_pin() || e.loses_device(),
    ensures
        ({
            let (s1, _) = submit_next(s, IntentView::Delete { id });
            let (s2, step2) = complete_next(s1, ReplyView::Finished(Err(e)));
            &&& step2 == StepView::Done(Err::<Notice, FidoError>(e))
            &&& s2.lock_state == LockState::Locked
            &&& s2.cached_secret is None
            &&& s2.credentials.len() == 0
        }),
{
}

} // verus!
