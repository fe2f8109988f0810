//! The session-lock controller's decisions: which state to report and which URL the
//! compositor's lock surfaces load, as requests and compositor events arrive.
//!
//! The GTK side asks the compositor and builds the surfaces; this machine decides.

use vstd::prelude::*;

use crate::protocol::SessionLockState;

verus! {

/// What the session-lock machine knows: the URL that lock surfaces load, if a lock
/// is under way, and the state last reported.
pub struct LockModel {
    pub url: Option<Seq<char>>,
    pub state: SessionLockState,
}

/// A reported `Pending` state always comes with the URL of the requested lock.
pub open spec fn lock_model_wf(m: LockModel) -> bool {
    m.state == SessionLockState::Pending ==> m.url is Some
}

/// How a lock request was decided.
#[derive(Clone, Copy, Debug, PartialEq, Eq, Structural)]
pub enum LockDecision {
    /// The compositor does not support session locking; the lock failed.
    Unavailable,
    /// The session is already locked; nothing is asked of the compositor.
    AlreadyLocked,
    /// The compositor is to be asked to lock the session.
    Requested,
}

/// The decision on a lock request.
pub open spec fn lock_decision(supported: bool, compositor_locked: bool) -> LockDecision {
    if !supported {
        LockDecision::Unavailable
    } else if compositor_locked {
        LockDecision::AlreadyLocked
    } else {
        LockDecision::Requested
    }
}

/// The model after a lock request for `url`.
pub open spec fn after_lock_request(
    m: LockModel,
    supported: bool,
    compositor_locked: bool,
    url: Seq<char>,
) -> LockModel {
    match lock_decision(supported, compositor_locked) {
        LockDecision::Unavailable => LockModel { url: m.url, state: SessionLockState::Failed },
        LockDecision::AlreadyLocked => LockModel { url: m.url, state: SessionLockState::Locked },
        LockDecision::Requested => LockModel { url: Some(url), state: SessionLockState::Pending },
    }
}

/// The model after the compositor refused to start a requested lock.
pub open spec fn after_lock_refused(m: LockModel) -> LockModel {
    LockModel { url: None, state: SessionLockState::Failed }
}

/// The model after an unlock request.
pub open spec fn after_unlock_request(m: LockModel, supported: bool) -> LockModel {
    if supported {
        m
    } else {
        LockModel { url: m.url, state: SessionLockState::Unlocked }
    }
}

/// The model after the compositor confirmed the lock.
pub open spec fn after_locked(m: LockModel) -> LockModel {
    LockModel { url: m.url, state: SessionLockState::Locked }
}

/// The model after the compositor reported that the lock failed.
pub open spec fn after_failed(m: LockModel) -> LockModel {
    LockModel { url: None, state: SessionLockState::Failed }
}

/// The model after the compositor reported that the session is unlocked.
pub open spec fn after_unlocked(m: LockModel) -> LockModel {
    LockModel { url: None, state: SessionLockState::Unlocked }
}

/// The session-lock machine.
pub struct SessionLock {
    url: Option<String>,
    state: SessionLockState,
}

impl View for SessionLock {
    type V = LockModel;

    closed spec fn view(&self) -> LockModel {
        LockModel {
            url: match self.url {
                Some(u) => Some(u@),
                None => None,
            },
            state: self.state,
        }
    }
}

impl SessionLock {
    /// No lock under way, and the session reported unlocked.
    pub fn new() -> (lock: Self)
        ensures
            lock@ == (LockModel { url: None, state: SessionLockState::Unlocked }),
            lock_model_wf(lock@),
    {
        SessionLock { url: None, state: SessionLockState::Unlocked }
    }

    /// The state to report.
    pub fn state(&self) -> (state: SessionLockState)
        ensures
            state == self@.state,
    {
        self.state
    }

    /// The URL that a lock surface for a newly arrived monitor loads; `None` when no
    /// lock is under way.
    pub fn surface_url(&self) -> (url: Option<String>)
        ensures
            url is Some <==> self@.url is Some,
            url matches Some(u) ==> self@.url == Some(u@),
    {
        match &self.url {
            Some(u) => Some(u.clone()),
            None => None,
        }
    }

    /// Decides a lock request for `url`. `supported` says whether the compositor offers
    /// session locking, `compositor_locked` whether it reports the session locked.
    pub fn request_lock(&mut self, supported: bool, compositor_locked: bool, url: String) -> (decision:
        LockDecision)
        ensures
            decision == lock_decision(supported, compositor_locked),
            final(self)@ == after_lock_request(old(self)@, supported, compositor_locked, url@),
            !supported ==> (decision == LockDecision::Unavailable && final(self)@.state
                == SessionLockState::Failed && final(self)@.url == old(self)@.url),
            supported && compositor_locked ==> (decision == LockDecision::AlreadyLocked
                && final(self)@.state == SessionLockState::Locked && final(self)@.url == old(
            self)@.url),
            supported && !compositor_locked ==> (decision == LockDecision::Requested
                && final(self)@.state == SessionLockState::Pending && final(self)@.url == Some(
            url@)),
    {
        if !supported {
            self.state = SessionLockState::Failed;
            LockDecision::Unavailable
        } else if compositor_locked {
            self.state = SessionLockState::Locked;
            LockDecision::AlreadyLocked
        } else {
            self.url = Some(url);
            self.state = SessionLockState::Pending;
            LockDecision::Requested
        }
    }

    /// Records that the compositor refused to start a requested lock.
    pub fn lock_refused(&mut self)
        ensures
            final(self)@ == after_lock_refused(old(self)@),
    {
        self.url = None;
        self.state = SessionLockState::Failed;
    }

    /// Decides an unlock request: returns whether the compositor is to be asked to
    /// unlock. Without session-lock support the session is reported unlocked at once.
    pub fn request_unlock(&mut self, supported: bool) -> (ask_compositor: bool)
        ensures
            ask_compositor == supported,
            final(self)@ == after_unlock_request(old(self)@, supported),
    {
        if !supported {
            self.state = SessionLockState::Unlocked;
        }
        supported
    }

    /// Records that the compositor confirmed the lock.
    pub fn locked(&mut self)
        ensures
            final(self)@ == after_locked(old(self)@),
    {
        self.state = SessionLockState::Locked;
    }

    /// Records that the compositor reported the lock failed; its surfaces are to be
    /// dropped.
    pub fn failed(&mut self)
        ensures
            final(self)@ == after_failed(old(self)@),
    {
        self.url = None;
        self.state = SessionLockState::Failed;
    }

    /// Records that the compositor reported the session unlocked; the lock surfaces are
    /// to be dropped.
    pub fn unlocked(&mut self)
        ensures
            final(self)@ == after_unlocked(old(self)@),
    {
        self.url = None;
        self.state = SessionLockState::Unlocked;
    }
}

/// Every transition keeps the rule that a pending lock has a URL: `pending` is
/// reported only while a requested lock awaits the compositor.
pub proof fn lemma_transitions_keep_pending_url(
    m: LockModel,
    supported: bool,
    compositor_locked: bool,
    url: Seq<char>,
)
    requires
        lock_model_wf(m),
    ensures
        lock_model_wf(after_lock_request(m, supported, compositor_locked, url)),
        lock_model_wf(after_lock_refused(m)),
        lock_model_wf(after_unlock_request(m, supported)),
        lock_model_wf(after_locked(m)),
        lock_model_wf(after_failed(m)),
        lock_model_wf(after_unlocked(m)),
{
}

/// A lock requested of a supporting compositor is reported pending, its surfaces load
/// the requested URL until the compositor confirms, and after confirmation the session
/// is reported locked with the same URL; once the compositor reports the session
/// unlocked, it is reported unlocked and new monitors get no lock surface.
pub proof fn lemma_lock_lifecycle(m: LockModel, url: Seq<char>)
    ensures
        after_lock_request(m, true, false, url) == (LockModel {
            url: Some(url),
            state: SessionLockState::Pending,
        }),
        after_locked(after_lock_request(m, true, false, url)) == (LockModel {
            url: Some(url),
            state: SessionLockState::Locked,
        }),
        after_unlocked(after_locked(after_lock_request(m, true, false, url))) == (LockModel {
            url: None,
            state: SessionLockState::Unlocked,
        }),
{
}

/// Without compositor support a lock request is reported failed, and an unlock
/// request is reported unlocked, whatever the state before.
pub proof fn lemma_unsupported_compositor(m: LockModel, compositor_locked: bool, url: Seq<char>)
    ensures
        after_lock_request(m, false, compositor_locked, url).state == SessionLockState::Failed,
        after_unlock_request(m, false).state == SessionLockState::Unlocked,
{
}

/// A lock that fails, whether refused at once or reported failed by the compositor,
/// is reported failed and leaves no URL for new lock surfaces.
pub proof fn lemma_failed_lock_clears_url(m: LockModel)
    ensures
        after_lock_refused(m) == (LockModel { url: None, state: SessionLockState::Failed }),
        after_failed(m) == (LockModel { url: None, state: SessionLockState::Failed }),
{
}

/// A lock request is answered from what the compositor reports, whatever was
/// reported before: without support the lock failed; when the compositor reports
/// the session locked it is reported locked and the lock URL is kept; otherwise the
/// requested lock is pending with the requested URL.
pub proof fn lemma_lock_request_outcomes(m: LockModel, url: Seq<char>)
    ensures
        after_lock_request(m, true, true, url).state == SessionLockState::Locked,
        after_lock_request(m, true, true, url).url == m.url,
        lock_decision(true, true) == LockDecision::AlreadyLocked,
        after_lock_request(m, true, false, url).state == SessionLockState::Pending,
        after_lock_request(m, true, false, url).url == Some(url),
        lock_decision(true, false) == LockDecision::Requested,
        after_lock_request(m, false, true, url).state == SessionLockState::Failed,
        after_lock_request(m, false, false, url).state == SessionLockState::Failed,
        after_lock_request(m, false, true, url).url == m.url,
        lock_decision(false, true) == LockDecision::Unavailable,
        lock_decision(false, false) == LockDecision::Unavailable,
{
}

/// A second lock request while the compositor keeps the session locked leaves the
/// session reported locked: requesting a lock twice never reports it unlocked.
pub proof fn lemma_repeated_lock_stays_locked(m: LockModel, first: Seq<char>, second: Seq<char>)
    ensures
        after_lock_request(after_locked(after_lock_request(m, true, false, first)), true, true, second)
            == (LockModel { url: Some(first), state: SessionLockState::Locked }),
{
}

/// Compositor events and unlock requests: a confirmed lock is reported locked and keeps
/// its URL; an unlock request to a supporting compositor changes nothing until the
/// compositor answers, and without support reports the session unlocked.
pub proof fn lemma_event_outcomes(m: LockModel)
    ensures
        after_locked(m).state == SessionLockState::Locked,
        after_locked(m).url == m.url,
        after_unlock_request(m, true) == m,
        after_unlock_request(m, false).state == SessionLockState::Unlocked,
        after_unlock_request(m, false).url == m.url,
        after_unlocked(m).state == SessionLockState::Unlocked,
        after_unlocked(m).url is None,
        after_failed(m).state == SessionLockState::Failed,
        after_failed(m).url is None,
{
}

} // verus!
