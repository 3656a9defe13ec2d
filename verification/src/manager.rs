//! How a caller comes by a session that is logged in, and keeps it so for one call.
//!
//! The manager decides; it touches neither the auth cache, nor the credential
//! store, nor the site. The caller reports what happened as an `Event`, and is
//! told what to do next as an `Action`. A snapshot of type `A` is whatever the
//! adapter keeps of a login.

use vstd::prelude::*;
use crate::error::Error;

verus! {

/// Where the protocol stands.
#[derive(Clone, Copy, Debug, PartialEq, Eq, Structural)]
pub enum Stage {
    /// Nothing was done yet.
    Idle,
    /// The auth cache was asked for the site's snapshot.
    ReadingCache,
    /// The credential store was asked for the user's name and password.
    FetchingCredentials,
    /// A login is under way.
    LoggingIn,
    /// The adapter was asked for a snapshot of the fresh login.
    Capturing,
    /// The call for which the session is wanted is under way.
    Calling,
    /// The protocol has ended, with the call's result or a failure.
    Finished,
}

/// The state of the protocol for one call.
#[derive(Clone, Copy, Debug, PartialEq, Eq, Structural)]
pub struct Manager {
    pub stage: Stage,
    /// Whether the one login that a denied call is worth has been spent.
    pub relogged: bool,
}

/// What the caller reports.
#[derive(Clone, Debug, PartialEq, Eq)]
pub enum Event<A> {
    /// The caller wants to make a call.
    Begin,
    /// What the auth cache holds for the site.
    CacheRead(Option<A>),
    /// What the credential store holds for the site.
    Credentials { username: String, password: String },
    /// The site let the user in.
    LoggedIn,
    /// The login failed.
    LoginFailed(Error),
    /// What the adapter keeps of the fresh login; `None` where it keeps nothing.
    Captured(Option<A>),
    /// The call went through.
    CallSucceeded,
    /// The call failed.
    CallFailed(Error),
}

/// What the caller is to do next.
#[derive(Clone, Debug, PartialEq, Eq)]
pub enum Action<A> {
    /// Ask the auth cache for the site's snapshot.
    ReadCache,
    /// Put the snapshot into a fresh session, then make the call.
    Restore(A),
    /// Ask the credential store for the user's name and password.
    AskCredentials,
    /// Drop the site's snapshot from the auth cache, then ask the credential store.
    DiscardAndAskCredentials,
    /// Log in.
    Login { username: String, password: String },
    /// Ask the adapter for a snapshot of the session.
    Capture,
    /// Write the snapshot to the auth cache, then make the call.
    Store(A),
    /// Note in the auth cache that there is nothing to keep, then make the call.
    StoreNone,
    /// Hand the call's result to the caller.
    Succeed,
    /// Hand the failure to the caller as it is.
    Fail(Error),
    /// The event does not belong to the stage; nothing is to be done.
    Ignore,
}

impl Manager {
    /// The state before anything was done.
    pub open spec fn initial() -> Manager {
        Manager { stage: Stage::Idle, relogged: false }
    }

    pub open spec fn at(self, stage: Stage) -> Manager {
        Manager { stage, relogged: self.relogged }
    }
}

/// The protocol: the state and the action that follow a state and an event.
///
/// A snapshot from the cache is trusted until a call is denied. A denied call is
/// worth one login and one more try, once; whatever fails after that, and every
/// other failure, is handed on as it came. A failed login ends the protocol.
pub open spec fn transition<A>(manager: Manager, event: Event<A>) -> (Manager, Action<A>) {
    match (manager.stage, event) {
        (Stage::Idle, Event::Begin) => (manager.at(Stage::ReadingCache), Action::ReadCache),
        (Stage::ReadingCache, Event::CacheRead(Some(snapshot))) => (
            manager.at(Stage::Calling),
            Action::Restore(snapshot),
        ),
        (Stage::ReadingCache, Event::CacheRead(None)) => (
            manager.at(Stage::FetchingCredentials),
            Action::AskCredentials,
        ),
        (Stage::FetchingCredentials, Event::Credentials { username, password }) => (
            manager.at(Stage::LoggingIn),
            Action::Login { username, password },
        ),
        (Stage::LoggingIn, Event::LoggedIn) => (manager.at(Stage::Capturing), Action::Capture),
        (Stage::LoggingIn, Event::LoginFailed(error)) => (
            manager.at(Stage::Finished),
            Action::Fail(error),
        ),
        (Stage::Capturing, Event::Captured(Some(snapshot))) => (
            manager.at(Stage::Calling),
            Action::Store(snapshot),
        ),
        (Stage::Capturing, Event::Captured(None)) => (
            manager.at(Stage::Calling),
            Action::StoreNone,
        ),
        (Stage::Calling, Event::CallSucceeded) => (manager.at(Stage::Finished), Action::Succeed),
        (Stage::Calling, Event::CallFailed(error)) => if error is AccessDenied
            && !manager.relogged {
            (
                Manager { stage: Stage::FetchingCredentials, relogged: true },
                Action::DiscardAndAskCredentials,
            )
        } else {
            (manager.at(Stage::Finished), Action::Fail(error))
        },
        _ => (manager, Action::Ignore),
    }
}

/// What the auth cache holds for the site after the caller did as told.
pub open spec fn cache_after<A>(cache: Option<A>, action: Action<A>) -> Option<A> {
    match action {
        Action::Store(snapshot) => Some(snapshot),
        Action::StoreNone => None,
        Action::DiscardAndAskCredentials => None,
        _ => cache,
    }
}

/// The actions that a run of events brings about, from a given state on.
pub open spec fn actions_of<A>(manager: Manager, events: Seq<Event<A>>) -> Seq<Action<A>>
    decreases events.len(),
{
    if events.len() == 0 {
        Seq::empty()
    } else {
        let (next, action) = transition(manager, events[0]);
        seq![action] + actions_of(next, events.drop_first())
    }
}

/// The state that a run of events leads to, from a given state on.
pub open spec fn state_after<A>(manager: Manager, events: Seq<Event<A>>) -> Manager
    decreases events.len(),
{
    if events.len() == 0 {
        manager
    } else {
        state_after(transition(manager, events[0]).0, events.drop_first())
    }
}

/// How often the actions tell the caller to drop the snapshot and log in anew.
pub open spec fn relogins<A>(actions: Seq<Action<A>>) -> nat
    decreases actions.len(),
{
    if actions.len() == 0 {
        0
    } else {
        let rest = relogins(actions.drop_first());
        if actions[0] is DiscardAndAskCredentials {
            rest + 1
        } else {
            rest
        }
    }
}

/// How often the actions tell the caller to log in.
pub open spec fn logins<A>(actions: Seq<Action<A>>) -> nat
    decreases actions.len(),
{
    if actions.len() == 0 {
        0
    } else {
        let rest = logins(actions.drop_first());
        if actions[0] is Login {
            rest + 1
        } else {
            rest
        }
    }
}

/// How many logins a state still allows: one for a caller that was not let in yet,
/// and one more as long as a denied call has not been answered with a new login.
pub open spec fn logins_left(manager: Manager) -> nat {
    let retry: nat = if manager.relogged {
        0
    } else {
        1
    };
    match manager.stage {
        Stage::Idle | Stage::ReadingCache | Stage::FetchingCredentials => 1 + retry,
        Stage::LoggingIn | Stage::Capturing | Stage::Calling => retry,
        Stage::Finished => 0,
    }
}

/// A failed login never writes to the auth cache: whatever the cache held before
/// the failure was reported, it holds after. This is so in every state.
pub proof fn lemma_failed_login_keeps_cache<A>(manager: Manager, error: Error, cache: Option<A>)
    ensures
        cache_after(cache, transition::<A>(manager, Event::LoginFailed(error)).1) == cache,
{
}

/// A failed login is handed to the caller at once, as it came, and ends the
/// protocol: the manager asks for no second login.
pub proof fn lemma_failed_login_surfaces<A>(manager: Manager, error: Error)
    requires
        manager.stage == Stage::LoggingIn,
    ensures
        transition::<A>(manager, Event::LoginFailed(error)).1 == Action::<A>::Fail(error),
        transition::<A>(manager, Event::LoginFailed(error)).0.stage == Stage::Finished,
{
}

/// A call's failure other than a denial is handed on unchanged, and so is a denial
/// after the one new login was spent.
pub proof fn lemma_failure_passes_through<A>(manager: Manager, error: Error)
    requires
        manager.stage == Stage::Calling,
        !(error is AccessDenied) || manager.relogged,
    ensures
        transition::<A>(manager, Event::CallFailed(error)).1 == Action::<A>::Fail(error),
        transition::<A>(manager, Event::CallFailed(error)).0.stage == Stage::Finished,
{
}

/// Once the protocol has ended, no event brings about anything.
pub proof fn lemma_finished_is_final<A>(manager: Manager, event: Event<A>)
    requires
        manager.stage == Stage::Finished,
    ensures
        transition(manager, event) == (manager, Action::<A>::Ignore),
{
}

/// From any state, a run of events drops the snapshot and logs in anew once at
/// most, and not at all where that was done before.
pub proof fn lemma_relogins_bounded<A>(manager: Manager, events: Seq<Event<A>>)
    ensures
        relogins(actions_of(manager, events)) <= (if manager.relogged {
            0nat
        } else {
            1nat
        }),
        manager.relogged ==> state_after(manager, events).relogged,
    decreases events.len(),
{
    if events.len() > 0 {
        let (next, action) = transition(manager, events[0]);
        let rest = actions_of(next, events.drop_first());
        lemma_relogins_bounded(next, events.drop_first());
        assert((seq![action] + rest).drop_first() =~= rest);
        assert((seq![action] + rest)[0] == action);
    }
}

/// From any state, a run of events brings about no more logins than the state allows.
pub proof fn lemma_logins_bounded<A>(manager: Manager, events: Seq<Event<A>>)
    ensures
        logins(actions_of(manager, events)) <= logins_left(manager),
    decreases events.len(),
{
    if events.len() > 0 {
        let (next, action) = transition(manager, events[0]);
        let rest = actions_of(next, events.drop_first());
        lemma_logins_bounded(next, events.drop_first());
        assert((seq![action] + rest).drop_first() =~= rest);
        assert((seq![action] + rest)[0] == action);
    }
}

/// Whatever the caller reports, in whatever order: for one call the manager tells
/// it twice at most to log in, the first time and once more after a denial.
pub proof fn lemma_two_logins_per_call<A>(events: Seq<Event<A>>)
    ensures
        logins(actions_of(Manager::initial(), events)) <= 2,
{
    lemma_logins_bounded(Manager::initial(), events);
}

/// Whatever the caller reports, in whatever order: for one call the manager tells
/// it once at most to drop the cached snapshot and log in anew.
pub proof fn lemma_one_relogin_per_call<A>(events: Seq<Event<A>>)
    ensures
        relogins(actions_of(Manager::initial(), events)) <= 1,
{
    lemma_relogins_bounded(Manager::initial(), events);
}

impl Manager {
    /// The state before anything was done.
    pub fn new() -> (manager: Manager)
        ensures
            manager == Manager::initial(),
    {
        Manager { stage: Stage::Idle, relogged: false }
    }

    /// Whether the protocol has ended.
    pub fn is_finished(&self) -> (finished: bool)
        ensures
            finished == (self.stage == Stage::Finished),
    {
        match self.stage {
            Stage::Finished => true,
            _ => false,
        }
    }

    /// Takes an event and tells what to do next.
    pub fn step<A>(&mut self, event: Event<A>) -> (action: Action<A>)
        ensures
            (*final(self), action) == transition(*old(self), event),
    {
        match (self.stage, event) {
            (Stage::Idle, Event::Begin) => {
                self.stage = Stage::ReadingCache;
                Action::ReadCache
            },
            (Stage::ReadingCache, Event::CacheRead(Some(snapshot))) => {
                self.stage = Stage::Calling;
                Action::Restore(snapshot)
            },
            (Stage::ReadingCache, Event::CacheRead(None)) => {
                self.stage = Stage::FetchingCredentials;
                Action::AskCredentials
            },
            (Stage::FetchingCredentials, Event::Credentials { username, password }) => {
                self.stage = Stage::LoggingIn;
                Action::Login { username, password }
            },
            (Stage::LoggingIn, Event::LoggedIn) => {
                self.stage = Stage::Capturing;
                Action::Capture
            },
            (Stage::LoggingIn, Event::LoginFailed(error)) => {
                self.stage = Stage::Finished;
                Action::Fail(error)
            },
            (Stage::Capturing, Event::Captured(Some(snapshot))) => {
                self.stage = Stage::Calling;
                Action::Store(snapshot)
            },
            (Stage::Capturing, Event::Captured(None)) => {
                self.stage = Stage::Calling;
                Action::StoreNone
            },
            (Stage::Calling, Event::CallSucceeded) => {
                self.stage = Stage::Finished;
                Action::Succeed
            },
            (Stage::Calling, Event::CallFailed(error)) => {
                if error.is_access_denied() && !self.relogged {
                    self.stage = Stage::FetchingCredentials;
                    self.relogged = true;
                    Action::DiscardAndAskCredentials
                } else {
                    self.stage = Stage::Finished;
                    Action::Fail(error)
                }
            },
            _ => Action::Ignore,
        }
    }
}

/// Begins the protocol for one call, given what the auth cache holds for the site.
/// With a snapshot, the caller is told to restore it and to go ahead; without one,
/// to ask for the credentials with which to log in.
pub fn connect<A>(cached: Option<A>) -> (started: (Manager, Action<A>))
    ensures
        started == transition(
            transition::<A>(Manager::initial(), Event::Begin).0,
            Event::CacheRead(cached),
        ),
        cached matches Some(snapshot) ==> started.1 == Action::Restore(snapshot),
        cached is None ==> started.1 == Action::<A>::AskCredentials,
{
    let mut manager = Manager::new();
    let _ = manager.step::<A>(Event::Begin);
    let action = manager.step(Event::CacheRead(cached));
    (manager, action)
}

} // verus!
