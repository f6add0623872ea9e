use vstd::prelude::*;

use crate::credential::{credentials_view, CredentialView, StoredCredential};
use crate::error::FidoError;

verus! {

/// The shortest minimum PIN length that may be requested.
pub const MIN_PIN_LENGTH_FLOOR: u8 = 4;

/// Where the session stands with respect to the stored credentials.
#[derive(PartialEq, Eq, Structural, Clone, Copy, Debug)]
pub enum LockState {
    Locked,
    /// A listing with a freshly entered PIN is in flight.
    Unlocking,
    Unlocked,
    /// Passed through while the session is torn down; a lock completes within
    /// the call that starts it, so no session is ever observed resting here.
    Locking,
}

/// A user intent, carrying what exactly one device call needs.
pub enum Intent {
    Unlock { pin: String },
    Lock,
    Delete { credential_id: String },
    ChangePin { current_pin: Option<String>, new_pin: String },
    SetMinPinLength { pin: String, length: u8 },
}

/// A device call that the session asks its owner to perform.
pub enum DeviceCall {
    ListCredentials { pin: String },
    DeleteCredential { pin: String, credential_id: String },
    ChangePin { current_pin: Option<String>, new_pin: String },
    SetMinPinLength { pin: String, length: u8 },
}

/// What a device call came back with.
pub enum DeviceReply {
    Listed(Result<Vec<StoredCredential>, FidoError>),
    Finished(Result<(), FidoError>),
}

/// A successful outcome, for the user-facing notification.
#[derive(PartialEq, Eq, Structural, Clone, Copy, Debug)]
pub enum Notice {
    Unlocked,
    Locked,
    /// The credential is gone from the device; `relist_error` tells why the
    /// listing that should have followed did not come back.
    CredentialDeleted { relist_error: Option<FidoError> },
    PinChanged,
    PinSet,
    MinPinLengthSet { length: u8 },
}

/// What the owner of a session does next: perform a device call and hand its
/// reply to `Session::complete`, or surface a finished outcome.
pub enum Step {
    Call(DeviceCall),
    Done(Result<Notice, FidoError>),
}

/// The device operation a session is waiting on.
enum Pending {
    Unlock { pin: String },
    Delete { credential_id: String },
    Relist { deleted_id: String },
    ChangePin { first_pin: bool },
    SetMinPinLength { length: u8 },
}

// ---------------------------------------------------------------------------
// The mathematical model.

pub enum IntentView {
    Unlock { pin: Seq<char> },
    Lock,
    Delete { id: Seq<char> },
    ChangePin { current_pin: Option<Seq<char>>, new_pin: Seq<char> },
    SetMinPinLength { pin: Seq<char>, length: u8 },
}

pub enum CallView {
    ListCredentials { pin: Seq<char> },
    DeleteCredential { pin: Seq<char>, id: Seq<char> },
    ChangePin { current_pin: Option<Seq<char>>, new_pin: Seq<char> },
    SetMinPinLength { pin: Seq<char>, length: u8 },
}

pub enum ReplyView {
    Listed(Result<Seq<CredentialView>, FidoError>),
    Finished(Result<(), FidoError>),
}

pub enum StepView {
    Call(CallView),
    Done(Result<Notice, FidoError>),
}

pub enum PendingView {
    Unlock { pin: Seq<char> },
    Delete { id: Seq<char> },
    Relist { deleted_id: Seq<char> },
    ChangePin { first_pin: bool },
    SetMinPinLength { length: u8 },
}

pub struct SessionView {
    pub lock_state: LockState,
    pub cached_secret: Option<Seq<char>>,
    pub credentials: Seq<CredentialView>,
    /// The operation in flight, if any: at most one by construction.
    pub pending: Option<PendingView>,
}

pub open spec fn opt_view(s: Option<String>) -> Option<Seq<char>> {
    match s {
        Some(p) => Some(p@),
        None => None,
    }
}

impl View for Intent {
    type V = IntentView;

    open spec fn view(&self) -> IntentView {
        match self {
            Intent::Unlock { pin } => IntentView::Unlock { pin: pin@ },
            Intent::Lock => IntentView::Lock,
            Intent::Delete { credential_id } => IntentView::Delete { id: credential_id@ },
            Intent::ChangePin { current_pin, new_pin } => IntentView::ChangePin {
                current_pin: opt_view(*current_pin),
                new_pin: new_pin@,
            },
            Intent::SetMinPinLength { pin, length } => IntentView::SetMinPinLength {
                pin: pin@,
                length: *length,
            },
        }
    }
}

impl View for DeviceCall {
    type V = CallView;

    open spec fn view(&self) -> CallView {
        match self {
            DeviceCall::ListCredentials { pin } => CallView::ListCredentials { pin: pin@ },
            DeviceCall::DeleteCredential { pin, credential_id } => CallView::DeleteCredential {
                pin: pin@,
                id: credential_id@,
            },
            DeviceCall::ChangePin { current_pin, new_pin } => CallView::ChangePin {
                current_pin: opt_view(*current_pin),
                new_pin: new_pin@,
            },
            DeviceCall::SetMinPinLength { pin, length } => CallView::SetMinPinLength {
                pin: pin@,
                length: *length,
            },
        }
    }
}

impl View for DeviceReply {
    type V = ReplyView;

    open spec fn view(&self) -> ReplyView {
        match self {
            DeviceReply::Listed(Ok(creds)) => ReplyView::Listed(Ok(credentials_view(creds@))),
            DeviceReply::Listed(Err(e)) => ReplyView::Listed(Err(*e)),
            DeviceReply::Finished(r) => ReplyView::Finished(*r),
        }
    }
}

impl View for Step {
    type V = StepView;

    open spec fn view(&self) -> StepView {
        match self {
            Step::Call(c) => StepView::Call(c@),
            Step::Done(r) => StepView::Done(*r),
        }
    }
}

impl View for Pending {
    type V = PendingView;

    closed spec fn view(&self) -> PendingView {
        match self {
            Pending::Unlock { pin } => PendingView::Unlock { pin: pin@ },
            Pending::Delete { credential_id } => PendingView::Delete { id: credential_id@ },
            Pending::Relist { deleted_id } => PendingView::Relist { deleted_id: deleted_id@ },
            Pending::ChangePin { first_pin } => PendingView::ChangePin { first_pin: *first_pin },
            Pending::SetMinPinLength { length } => PendingView::SetMinPinLength { length: *length },
        }
    }
}

impl PendingView {
    /// Whether this operation is answered by a credential listing.
    pub open spec fn awaits_listing(self) -> bool {
        self is Unlock || self is Relist
    }
}

impl ReplyView {
    pub open spec fn is_listing(self) -> bool {
        self is Listed
    }
}

impl SessionView {
    /// The session's invariant.
    pub open spec fn wf(self) -> bool {
        &&& (self.cached_secret is Some <==> self.lock_state == LockState::Unlocked)
        &&& (self.lock_state != LockState::Unlocked ==> self.credentials.len() == 0)
        &&& (self.lock_state == LockState::Unlocking <==> (self.pending matches Some(
            p,
        ) && p is Unlock))
        &&& self.lock_state != LockState::Locking
        &&& (self.pending matches Some(p) && (p is Delete || p is Relist) ==> self.lock_state
            == LockState::Unlocked)
    }

    pub open spec fn in_flight(self) -> bool {
        self.pending is Some
    }

    /// Whether `reply` is an answer to the operation in flight.
    pub open spec fn accepts(self, reply: ReplyView) -> bool {
        self.pending matches Some(p) && p.awaits_listing() == reply.is_listing()
    }

    /// The session after a lock: no secret, no credentials.
    pub open spec fn locked(self) -> SessionView {
        SessionView {
            lock_state: LockState::Locked,
            cached_secret: None,
            credentials: Seq::empty(),
            pending: self.pending,
        }
    }

    pub open spec fn with_pending(self, p: Option<PendingView>) -> SessionView {
        SessionView { pending: p, ..self }
    }

    /// The session as first made.
    pub open spec fn initial() -> SessionView {
        SessionView {
            lock_state: LockState::Locked,
            cached_secret: None,
            credentials: Seq::empty(),
            pending: None,
        }
    }
}

/// Admission of an intent: the next session and the next step.
pub open spec fn submit_next(s: SessionView, i: IntentView) -> (SessionView, StepView) {
    if s.in_flight() {
        (s, StepView::Done(Err(FidoError::SessionBusy)))
    } else {
        match i {
            IntentView::Unlock { pin } => if s.lock_state == LockState::Unlocked {
                (s, StepView::Done(Ok(Notice::Unlocked)))
            } else {
                (
                    SessionView {
                        lock_state: LockState::Unlocking,
                        pending: Some(PendingView::Unlock { pin }),
                        ..s
                    },
                    StepView::Call(CallView::ListCredentials { pin }),
                )
            },
            IntentView::Lock => (s.locked(), StepView::Done(Ok(Notice::Locked))),
            IntentView::Delete { id } => if s.lock_state == LockState::Unlocked
                && s.cached_secret is Some {
                (
                    s.with_pending(Some(PendingView::Delete { id })),
                    StepView::Call(
                        CallView::DeleteCredential { pin: s.cached_secret->Some_0, id },
                    ),
                )
            } else {
                (s, StepView::Done(Err(FidoError::InvalidRequest)))
            },
            IntentView::ChangePin { current_pin, new_pin } => (
                s.with_pending(Some(PendingView::ChangePin { first_pin: current_pin is None })),
                StepView::Call(CallView::ChangePin { current_pin, new_pin }),
            ),
            IntentView::SetMinPinLength { pin, length } => if length
                < MIN_PIN_LENGTH_FLOOR {
                (s, StepView::Done(Err(FidoError::InvalidRequest)))
            } else {
                (
                    s.with_pending(Some(PendingView::SetMinPinLength { length })),
                    StepView::Call(CallView::SetMinPinLength { pin, length }),
                )
            },
        }
    }
}

/// Delivery of a device reply: the next session and the next step. A reply
/// that does not answer the operation in flight is refused and changes nothing.
pub open spec fn complete_next(s: SessionView, r: ReplyView) -> (SessionView, StepView) {
    let idle = s.with_pending(None);
    let stray = (s, StepView::Done(Err(FidoError::InvalidRequest)));
    if !s.accepts(r) {
        stray
    } else {
        match s.pending->Some_0 {
            PendingView::Unlock { pin } => match r {
                ReplyView::Listed(Ok(creds)) => (
                    SessionView {
                        lock_state: LockState::Unlocked,
                        cached_secret: Some(pin),
                        credentials: creds,
                        pending: None,
                    },
                    StepView::Done(Ok(Notice::Unlocked)),
                ),
                ReplyView::Listed(Err(e)) => (idle.locked(), StepView::Done(Err(e))),
                _ => stray,
            },
            PendingView::Delete { id } => match r {
                ReplyView::Finished(Ok(())) => (
                    s.with_pending(Some(PendingView::Relist { deleted_id: id })),
                    StepView::Call(CallView::ListCredentials { pin: s.cached_secret->Some_0 }),
                ),
                ReplyView::Finished(Err(e)) => (
                    if e.loses_device() || e.invalidates_pin() {
                        idle.locked()
                    } else {
                        idle
                    },
                    StepView::Done(Err(e)),
                ),
                _ => stray,
            },
            PendingView::Relist { deleted_id } => match r {
                ReplyView::Listed(Ok(creds)) => (
                    SessionView { credentials: creds, ..idle },
                    StepView::Done(Ok(Notice::CredentialDeleted { relist_error: None })),
                ),
                ReplyView::Listed(Err(e)) => (
                    if e.loses_device() || e.invalidates_pin() {
                        idle.locked()
                    } else {
                        idle
                    },
                    StepView::Done(Ok(Notice::CredentialDeleted { relist_error: Some(e) })),
                ),
                _ => stray,
            },
            PendingView::ChangePin { first_pin } => match r {
                ReplyView::Finished(Ok(())) => (
                    idle.locked(),
                    StepView::Done(
                        Ok(
                            if first_pin {
                                Notice::PinSet
                            } else {
                                Notice::PinChanged
                            },
                        ),
                    ),
                ),
                ReplyView::Finished(Err(e)) => (
                    if e.loses_device() {
                        idle.locked()
                    } else {
                        idle
                    },
                    StepView::Done(Err(e)),
                ),
                _ => stray,
            },
            PendingView::SetMinPinLength { length } => match r {
                ReplyView::Finished(Ok(())) => (
                    idle,
                    StepView::Done(Ok(Notice::MinPinLengthSet { length })),
                ),
                ReplyView::Finished(Err(e)) => (
                    if e.loses_device() {
                        idle.locked()
                    } else {
                        idle
                    },
                    StepView::Done(Err(e)),
                ),
                _ => stray,
            },
        }
    }
}

// ---------------------------------------------------------------------------
// The session.

/// One session per connected authenticator: the lock state, the PIN cached
/// while unlocked, the credentials listed with it, and the one device
/// operation that may be in flight.
pub struct Session {
    lock_state: LockState,
    cached_secret: Option<String>,
    credentials: Vec<StoredCredential>,
    pending: Option<Pending>,
}

impl View for Session {
    type V = SessionView;

    closed spec fn view(&self) -> SessionView {
        SessionView {
            lock_state: self.lock_state,
            cached_secret: opt_view(self.cached_secret),
            credentials: credentials_view(self.credentials@),
            pending: match self.pending {
                Some(p) => Some(p@),
                None => None,
            },
        }
    }
}

impl Session {
    /// A locked session with nothing in flight.
    pub fn new() -> (r: Session)
        ensures
            r@ == SessionView::initial(),
            r@.wf(),
    {
        let r = Session {
            lock_state: LockState::Locked,
            cached_secret: None,
            credentials: Vec::new(),
            pending: None,
        };
        assert(r@.credentials =~= Seq::<CredentialView>::empty());
        r
    }

    /// Drops the secret and the credentials; the operation in flight, if any, stays.
    fn lock(&mut self)
        ensures
            final(self)@ == old(self)@.locked(),
    {
        self.lock_state = LockState::Locking;
        self.cached_secret = None;
        self.credentials.clear();
        self.lock_state = LockState::Locked;
        assert(final(self)@.credentials =~= Seq::<CredentialView>::empty());
    }

    /// Admits an intent or refuses it. A refusal (a call already in flight, or
    /// an intent that this state does not allow) leaves the session as it was.
    pub fn submit(&mut self, intent: Intent) -> (r: Step)
        requires
            old(self)@.wf(),
        ensures
            final(self)@.wf(),
            (final(self)@, r@) == submit_next(old(self)@, intent@),
    {
        if self.pending.is_some() {
            return Step::Done(Err(FidoError::SessionBusy));
        }
        match intent {
            Intent::Unlock { pin } => {
                if self.lock_state == LockState::Unlocked {
                    Step::Done(Ok(Notice::Unlocked))
                } else {
                    let call_pin = pin.clone();
                    self.lock_state = LockState::Unlocking;
                    self.pending = Some(Pending::Unlock { pin });
                    Step::Call(DeviceCall::ListCredentials { pin: call_pin })
                }
            },
            Intent::Lock => {
                self.lock();
                Step::Done(Ok(Notice::Locked))
            },
            Intent::Delete { credential_id } => {
                if self.lock_state == LockState::Unlocked {
                    match &self.cached_secret {
                        Some(secret) => {
                            let pin = secret.clone();
                            let id = credential_id.clone();
                            self.pending = Some(Pending::Delete { credential_id });
                            Step::Call(DeviceCall::DeleteCredential { pin, credential_id: id })
                        },
                        None => Step::Done(Err(FidoError::InvalidRequest)),
                    }
                } else {
                    Step::Done(Err(FidoError::InvalidRequest))
                }
            },
            Intent::ChangePin { current_pin, new_pin } => {
                let first_pin = current_pin.is_none();
                self.pending = Some(Pending::ChangePin { first_pin });
                Step::Call(DeviceCall::ChangePin { current_pin, new_pin })
            },
            Intent::SetMinPinLength { pin, length } => {
                if length < MIN_PIN_LENGTH_FLOOR {
                    Step::Done(Err(FidoError::InvalidRequest))
                } else {
                    self.pending = Some(Pending::SetMinPinLength { length });
                    Step::Call(DeviceCall::SetMinPinLength { pin, length })
                }
            },
        }
    }

    /// Asks to unlock the stored credentials with `pin`. From a locked session
    /// this lists the credentials with `pin`; an unlocked session answers at
    /// once, without a device call.
    pub fn request_unlock(&mut self, pin: String) -> (r: Step)
        requires
            old(self)@.wf(),
        ensures
            final(self)@.wf(),
            (final(self)@, r@) == submit_next(old(self)@, IntentView::Unlock { pin: pin@ }),
    {
        self.submit(Intent::Unlock { pin })
    }

    /// Drops the cached PIN and the credentials. Makes no device call.
    pub fn request_lock(&mut self) -> (r: Step)
        requires
            old(self)@.wf(),
        ensures
            final(self)@.wf(),
            (final(self)@, r@) == submit_next(old(self)@, IntentView::Lock),
    {
        self.submit(Intent::Lock)
    }

    /// Asks to delete a credential, with the cached PIN; allowed only while unlocked.
    pub fn request_delete(&mut self, credential_id: String) -> (r: Step)
        requires
            old(self)@.wf(),
        ensures
            final(self)@.wf(),
            (final(self)@, r@) == submit_next(
                old(self)@,
                IntentView::Delete { id: credential_id@ },
            ),
    {
        self.submit(Intent::Delete { credential_id })
    }

    /// Asks to change the PIN (`current_pin` given) or to set a first PIN
    /// (`current_pin` absent), whatever the lock state.
    pub fn request_change_pin(&mut self, current_pin: Option<String>, new_pin: String) -> (r: Step)
        requires
            old(self)@.wf(),
        ensures
            final(self)@.wf(),
            (final(self)@, r@) == submit_next(
                old(self)@,
                IntentView::ChangePin { current_pin: opt_view(current_pin), new_pin: new_pin@ },
            ),
    {
        self.submit(Intent::ChangePin { current_pin, new_pin })
    }

    /// Asks to set the minimum PIN length; a length under the floor is refused
    /// without a device call.
    pub fn request_set_min_pin_length(&mut self, pin: String, length: u8) -> (r: Step)
        requires
            old(self)@.wf(),
        ensures
            final(self)@.wf(),
            (final(self)@, r@) == submit_next(
                old(self)@,
                IntentView::SetMinPinLength { pin: pin@, length },
            ),
    {
        self.submit(Intent::SetMinPinLength { pin, length })
    }

    pub fn lock_state(&self) -> (r: LockState)
        ensures
            r == self@.lock_state,
    {
        self.lock_state
    }

    /// The credentials of the unlocked session, in the device's order.
    pub fn credentials(&self) -> (r: &Vec<StoredCredential>)
        ensures
            credentials_view(r@) == self@.credentials,
    {
        &self.credentials
    }

    /// Whether a device call is in flight.
    pub fn in_flight(&self) -> (r: bool)
        ensures
            r == self@.in_flight(),
    {
        self.pending.is_some()
    }

    /// Whether a PIN is cached. The PIN itself is never handed out.
    pub fn holds_secret(&self) -> (r: bool)
        ensures
            r == self@.cached_secret is Some,
    {
        self.cached_secret.is_some()
    }

    /// A read of the lock state, the credentials and whether a call is in flight.
    pub fn query_state(&self) -> (r: (LockState, &Vec<StoredCredential>, bool))
        ensures
            r.0 == self@.lock_state,
            credentials_view(r.1@) == self@.credentials,
            r.2 == self@.in_flight(),
    {
        (self.lock_state, &self.credentials, self.pending.is_some())
    }

    /// Whether `reply` answers the operation in flight.
    pub fn accepts(&self, reply: &DeviceReply) -> (r: bool)
        ensures
            r == self@.accepts(reply@),
    {
        match &self.pending {
            None => false,
            Some(p) => {
                let wants_listing = matches!(p, Pending::Unlock { .. } | Pending::Relist { .. });
                let is_listing = matches!(reply, DeviceReply::Listed(_));
                wants_listing == is_listing
            },
        }
    }

    /// Hands the reply of the device call in flight to the session. The call
    /// is no longer in flight when the reply is handled, so the step returned
    /// may itself be the next call (the listing that follows a deletion).
    pub fn complete(&mut self, reply: DeviceReply) -> (r: Step)
        requires
            old(self)@.wf(),
        ensures
            final(self)@.wf(),
            (final(self)@, r@) == complete_next(old(self)@, reply@),
    {
        if !self.accepts(&reply) {
            return Step::Done(Err(FidoError::InvalidRequest));
        }
        let pending = self.pending.take();
        match pending {
            Some(Pending::Unlock { pin }) => match reply {
                DeviceReply::Listed(Ok(creds)) => {
                    self.lock_state = LockState::Unlocked;
                    self.cached_secret = Some(pin);
                    self.credentials = creds;
                    Step::Done(Ok(Notice::Unlocked))
                },
                DeviceReply::Listed(Err(e)) => {
                    self.lock();
                    Step::Done(Err(e))
                },
                DeviceReply::Finished(_) => Step::Done(Err(FidoError::InvalidRequest)),
            },
            Some(Pending::Delete { credential_id }) => match reply {
                DeviceReply::Finished(Ok(())) => {
                    let pin = match &self.cached_secret {
                        Some(secret) => secret.clone(),
                        None => String::new(),
                    };
                    self.pending = Some(Pending::Relist { deleted_id: credential_id });
                    Step::Call(DeviceCall::ListCredentials { pin })
                },
                DeviceReply::Finished(Err(e)) => {
                    if e.ends_session() {
                        self.lock();
                    }
                    Step::Done(Err(e))
                },
                DeviceReply::Listed(_) => Step::Done(Err(FidoError::InvalidRequest)),
            },
            Some(Pending::Relist { deleted_id }) => match reply {
                DeviceReply::Listed(Ok(creds)) => {
                    self.credentials = creds;
                    Step::Done(Ok(Notice::CredentialDeleted { relist_error: None }))
                },
                DeviceReply::Listed(Err(e)) => {
                    if e.ends_session() {
                        self.lock();
                    }
                    Step::Done(Ok(Notice::CredentialDeleted { relist_error: Some(e) }))
                },
                DeviceReply::Finished(_) => Step::Done(Err(FidoError::InvalidRequest)),
            },
            Some(Pending::ChangePin { first_pin }) => match reply {
                DeviceReply::Finished(Ok(())) => {
                    self.lock();
                    Step::Done(Ok(if first_pin { Notice::PinSet } else { Notice::PinChanged }))
                },
                DeviceReply::Finished(Err(e)) => {
                    if e.is_device_loss() {
                        self.lock();
                    }
                    Step::Done(Err(e))
                },
                DeviceReply::Listed(_) => Step::Done(Err(FidoError::InvalidRequest)),
            },
            Some(Pending::SetMinPinLength { length }) => match reply {
                DeviceReply::Finished(Ok(())) => Step::Done(Ok(Notice::MinPinLengthSet { length })),
                DeviceReply::Finished(Err(e)) => {
                    if e.is_device_loss() {
                        self.lock();
                    }
                    Step::Done(Err(e))
                },
                DeviceReply::Listed(_) => Step::Done(Err(FidoError::InvalidRequest)),
            },
            None => Step::Done(Err(FidoError::InvalidRequest)),
        }
    }
}

} // verus!
