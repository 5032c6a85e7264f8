//! How the relay comes to a session with the chat service at start-up:
//! it goes on with the stored one, or logs in and stores the new one.

use vstd::prelude::*;
use crate::bot::{Bot, Error, ErrorView};
use crate::db::{found_session, Session};

verus! {

/// The session that the relay works with after start-up.
#[derive(Clone, Copy, Debug)]
pub enum ActiveSession {
    /// The stored session, gone on with. No password was sent.
    Resumed,
    /// A new login, stored for the next start.
    Fresh,
    /// A new login of which the chat service gave nothing to store. The
    /// relay works, but the next start has to log in again: the caller
    /// warns of it.
    Unsaved,
}

/// One piece of outside work that the start-up asks for, or its end.
#[derive(Clone, Debug)]
pub enum SessionAction {
    /// Look up the stored session of `user_id`.
    LoadSession { user_id: String },
    /// Go on with the stored session.
    Restore { user_id: String, access_token: String, device_id: String },
    /// Log in with the password.
    Login { user_id: String, password: String },
    /// Store the session of the login under `user_id`.
    SaveSession { user_id: String, access_token: String, device_id: String },
    /// The start-up is over: the relay has a session.
    Ready(ActiveSession),
    /// The start-up is over: it failed, and the relay cannot run.
    GiveUp(Error),
    /// Nothing is left to do.
    Nothing,
}

/// A [`SessionAction`] as plain text.
pub ghost enum SessionActionView {
    LoadSession { user_id: Seq<char> },
    Restore { user_id: Seq<char>, access_token: Seq<char>, device_id: Seq<char> },
    Login { user_id: Seq<char>, password: Seq<char> },
    SaveSession { user_id: Seq<char>, access_token: Seq<char>, device_id: Seq<char> },
    Ready(ActiveSession),
    GiveUp(ErrorView),
    Nothing,
}

impl View for SessionAction {
    type V = SessionActionView;

    open spec fn view(&self) -> SessionActionView {
        match *self {
            SessionAction::LoadSession { user_id } => SessionActionView::LoadSession {
                user_id: user_id@,
            },
            SessionAction::Restore { user_id, access_token, device_id } => {
                SessionActionView::Restore {
                    user_id: user_id@,
                    access_token: access_token@,
                    device_id: device_id@,
                }
            },
            SessionAction::Login { user_id, password } => SessionActionView::Login {
                user_id: user_id@,
                password: password@,
            },
            SessionAction::SaveSession { user_id, access_token, device_id } => {
                SessionActionView::SaveSession {
                    user_id: user_id@,
                    access_token: access_token@,
                    device_id: device_id@,
                }
            },
            SessionAction::Ready(session) => SessionActionView::Ready(session),
            SessionAction::GiveUp(error) => SessionActionView::GiveUp(error@),
            SessionAction::Nothing => SessionActionView::Nothing,
        }
    }
}

/// What came of the action that the start-up asked for last.
#[derive(Clone, Debug)]
pub enum SessionOutcome {
    /// The stored session that was looked up; `None` where there is none.
    Loaded(Option<Session>),
    /// The chat service took the stored session.
    Restored,
    /// The chat service took the password. With it come the credentials of
    /// the new session; `None` where the service gives none.
    LoggedIn(Option<Session>),
    /// The store wrote the session.
    Saved,
    /// The action failed.
    Failed(Error),
}

/// Where the start-up stands: what it waits for.
#[derive(Clone, Copy, Debug)]
pub enum SessionStage {
    /// The stored session.
    Loading,
    /// The chat service, to take the stored session.
    Restoring,
    /// The chat service, to take the password.
    LoggingIn,
    /// The store, to hold the new session.
    Saving,
    /// Nothing.
    Settled,
}

/// The start-up of the relay's session.
#[derive(Clone, Debug)]
pub struct SessionManager {
    pub stage: SessionStage,
    pub user_id: String,
    pub password: String,
}

/// A [`SessionManager`] as plain text.
pub ghost struct SessionManagerView {
    pub stage: SessionStage,
    pub user_id: Seq<char>,
    pub password: Seq<char>,
}

impl View for SessionManager {
    type V = SessionManagerView;

    open spec fn view(&self) -> SessionManagerView {
        SessionManagerView {
            stage: self.stage,
            user_id: self.user_id@,
            password: self.password@,
        }
    }
}

/// The start-up at another stage.
pub open spec fn session_at(m: SessionManagerView, stage: SessionStage) -> SessionManagerView {
    SessionManagerView { stage, ..m }
}

/// The first step of the start-up: look for a stored session.
pub open spec fn session_begin(user_id: Seq<char>, password: Seq<char>) -> (
    SessionManagerView,
    SessionActionView,
) {
    (
        SessionManagerView { stage: SessionStage::Loading, user_id, password },
        SessionActionView::LoadSession { user_id },
    )
}

/// The step that follows an outcome.
///
/// A stored session is gone on with, and the password is not used. Without
/// one the relay logs in and stores what the chat service gives it. Every
/// failure ends the start-up, and so does an outcome that does not answer
/// the action asked for.
pub open spec fn session_step(m: SessionManagerView, outcome: SessionOutcome) -> (
    SessionManagerView,
    SessionActionView,
) {
    match m.stage {
        SessionStage::Loading => match outcome {
            SessionOutcome::Loaded(found) => match found_session(found) {
                Some(session) => (
                    session_at(m, SessionStage::Restoring),
                    SessionActionView::Restore {
                        user_id: m.user_id,
                        access_token: session.access_token,
                        device_id: session.device_id,
                    },
                ),
                None => (
                    session_at(m, SessionStage::LoggingIn),
                    SessionActionView::Login { user_id: m.user_id, password: m.password },
                ),
            },
            SessionOutcome::Failed(error) => (
                session_at(m, SessionStage::Settled),
                SessionActionView::GiveUp(error@),
            ),
            _ => (session_at(m, SessionStage::Settled), SessionActionView::Nothing),
        },
        SessionStage::Restoring => match outcome {
            SessionOutcome::Restored => (
                session_at(m, SessionStage::Settled),
                SessionActionView::Ready(ActiveSession::Resumed),
            ),
            SessionOutcome::Failed(error) => (
                session_at(m, SessionStage::Settled),
                SessionActionView::GiveUp(error@),
            ),
            _ => (session_at(m, SessionStage::Settled), SessionActionView::Nothing),
        },
        SessionStage::LoggingIn => match outcome {
            SessionOutcome::LoggedIn(given) => match found_session(given) {
                Some(session) => (
                    session_at(m, SessionStage::Saving),
                    SessionActionView::SaveSession {
                        user_id: m.user_id,
                        access_token: session.access_token,
                        device_id: session.device_id,
                    },
                ),
                None => (
                    session_at(m, SessionStage::Settled),
                    SessionActionView::Ready(ActiveSession::Unsaved),
                ),
            },
            SessionOutcome::Failed(error) => (
                session_at(m, SessionStage::Settled),
                SessionActionView::GiveUp(error@),
            ),
            _ => (session_at(m, SessionStage::Settled), SessionActionView::Nothing),
        },
        SessionStage::Saving => match outcome {
            SessionOutcome::Saved => (
                session_at(m, SessionStage::Settled),
                SessionActionView::Ready(ActiveSession::Fresh),
            ),
            SessionOutcome::Failed(error) => (
                session_at(m, SessionStage::Settled),
                SessionActionView::GiveUp(error@),
            ),
            _ => (session_at(m, SessionStage::Settled), SessionActionView::Nothing),
        },
        SessionStage::Settled => (m, SessionActionView::Nothing),
    }
}

/// The actions that the start-up asks for from `m` on, one for each of the
/// outcomes reported to it in turn.
pub open spec fn session_run(m: SessionManagerView, outcomes: Seq<SessionOutcome>) -> Seq<
    SessionActionView,
>
    decreases outcomes.len(),
{
    if outcomes.len() == 0 {
        Seq::empty()
    } else {
        let next = session_step(m, outcomes[0]);
        seq![next.1] + session_run(next.0, outcomes.drop_first())
    }
}

impl SessionManager {
    fn settle(self, action: SessionAction) -> (next: (SessionManager, SessionAction))
        ensures
            next.0@ == session_at(self@, SessionStage::Settled),
            next.1 == action,
    {
        let mut m = self;
        m.stage = SessionStage::Settled;
        (m, action)
    }

    /// Takes the outcome of the action asked for last and gives the next
    /// action. [`SessionAction::Ready`] and [`SessionAction::GiveUp`] end
    /// the start-up.
    pub fn advance(self, outcome: SessionOutcome) -> (next: (SessionManager, SessionAction))
        ensures
            (next.0@, next.1@) == session_step(self@, outcome),
    {
        let mut m = self;
        match m.stage {
            SessionStage::Loading => match outcome {
                SessionOutcome::Loaded(found) => match found {
                    Some(session) => {
                        m.stage = SessionStage::Restoring;
                        let user_id = m.user_id.clone();
                        let Session { access_token, device_id } = session;
                        (m, SessionAction::Restore { user_id, access_token, device_id })
                    },
                    None => {
                        m.stage = SessionStage::LoggingIn;
                        let user_id = m.user_id.clone();
                        let password = m.password.clone();
                        (m, SessionAction::Login { user_id, password })
                    },
                },
                SessionOutcome::Failed(error) => m.settle(SessionAction::GiveUp(error)),
                _ => m.settle(SessionAction::Nothing),
            },
            SessionStage::Restoring => match outcome {
                SessionOutcome::Restored => m.settle(
                    SessionAction::Ready(ActiveSession::Resumed),
                ),
                SessionOutcome::Failed(error) => m.settle(SessionAction::GiveUp(error)),
                _ => m.settle(SessionAction::Nothing),
            },
            SessionStage::LoggingIn => match outcome {
                SessionOutcome::LoggedIn(given) => match given {
                    Some(session) => {
                        m.stage = SessionStage::Saving;
                        let user_id = m.user_id.clone();
                        let Session { access_token, device_id } = session;
                        (m, SessionAction::SaveSession { user_id, access_token, device_id })
                    },
                    None => m.settle(SessionAction::Ready(ActiveSession::Unsaved)),
                },
                SessionOutcome::Failed(error) => m.settle(SessionAction::GiveUp(error)),
                _ => m.settle(SessionAction::Nothing),
            },
            SessionStage::Saving => match outcome {
                SessionOutcome::Saved => m.settle(SessionAction::Ready(ActiveSession::Fresh)),
                SessionOutcome::Failed(error) => m.settle(SessionAction::GiveUp(error)),
                _ => m.settle(SessionAction::Nothing),
            },
            SessionStage::Settled => (m, SessionAction::Nothing),
        }
    }
}

impl Bot {
    /// Begins the start-up of the relay's session: the first action is the
    /// lookup of a stored session.
    pub fn resume_or_login(&self) -> (next: (SessionManager, SessionAction))
        ensures
            (next.0@, next.1@) == session_begin(self.user_id@, self.password@),
    {
        let user_id = self.user_id.clone();
        let m = SessionManager {
            stage: SessionStage::Loading,
            user_id: self.user_id.clone(),
            password: self.password.clone(),
        };
        (m, SessionAction::LoadSession { user_id })
    }
}

/// After the stored session was handed over, the start-up asks for no
/// action but its end.
pub proof fn lemma_restoring_only_ends(m: SessionManagerView, outcomes: Seq<SessionOutcome>)
    requires
        m.stage is Restoring || m.stage is Settled,
    ensures
        forall|i: int|
            0 <= i < session_run(m, outcomes).len() ==> {
                let action = #[trigger] session_run(m, outcomes)[i];
                action is Ready || action is GiveUp || action is Nothing
            },
        session_run(m, outcomes).len() == outcomes.len(),
    decreases outcomes.len(),
{
    if outcomes.len() > 0 {
        let next = session_step(m, outcomes[0]);
        lemma_restoring_only_ends(next.0, outcomes.drop_first());
    }
}

/// With a stored session the password is never sent: whatever is reported
/// to the start-up after that session was found, no action is a login. The
/// first action after the lookup hands the stored credentials over, and
/// after it the start-up asks for nothing but its end, so that the stored
/// session is never written again.
pub proof fn lemma_stored_session_needs_no_login(
    user_id: Seq<char>,
    password: Seq<char>,
    stored: Session,
    later: Seq<SessionOutcome>,
)
    ensures
        ({
            let start = session_begin(user_id, password);
            let found = seq![SessionOutcome::Loaded(Some(stored))];
            let actions = session_run(start.0, found + later);
            &&& start.1 == SessionActionView::LoadSession { user_id }
            &&& actions.len() == 1 + later.len()
            &&& actions[0] == SessionActionView::Restore {
                user_id,
                access_token: stored.access_token@,
                device_id: stored.device_id@,
            }
            &&& forall|i: int| 0 <= i < actions.len() ==> !(#[trigger] actions[i] is Login)
            &&& forall|i: int|
                1 <= i < actions.len() ==> {
                    let action = #[trigger] actions[i];
                    action is Ready || action is GiveUp || action is Nothing
                }
        }),
{
    let start = session_begin(user_id, password);
    let outcomes = seq![SessionOutcome::Loaded(Some(stored))] + later;
    let next = session_step(start.0, outcomes[0]);
    assert(outcomes.drop_first() =~= later);
    lemma_restoring_only_ends(next.0, later);
    let actions = session_run(start.0, outcomes);
    assert(actions == seq![next.1] + session_run(next.0, later));
    assert forall|i: int| 0 <= i < actions.len() implies !(#[trigger] actions[i] is Login) by {
        if i > 0 {
            assert(actions[i] == session_run(next.0, later)[i - 1]);
        }
    }
    assert forall|i: int| 1 <= i < actions.len() implies {
        let action = #[trigger] actions[i];
        action is Ready || action is GiveUp || action is Nothing
    } by {
        assert(actions[i] == session_run(next.0, later)[i - 1]);
    }
}

/// How many of the actions are of the kind `kind`.
pub open spec fn session_count(
    actions: Seq<SessionActionView>,
    kind: spec_fn(SessionActionView) -> bool,
) -> nat
    decreases actions.len(),
{
    if actions.len() == 0 {
        0
    } else if kind(actions[0]) {
        1 + session_count(actions.drop_first(), kind)
    } else {
        session_count(actions.drop_first(), kind)
    }
}

/// Whether the action sends the password.
pub open spec fn is_login(action: SessionActionView) -> bool {
    action is Login
}

/// Whether the action writes a session to the store.
pub open spec fn is_save(action: SessionActionView) -> bool {
    action is SaveSession
}

/// How many logins a start-up at this stage may still ask for.
pub open spec fn logins_left(stage: SessionStage) -> nat {
    match stage {
        SessionStage::Loading => 1,
        _ => 0,
    }
}

/// How many writes of a session a start-up at this stage may still ask for.
pub open spec fn saves_left(stage: SessionStage) -> nat {
    match stage {
        SessionStage::Loading => 1,
        SessionStage::LoggingIn => 1,
        _ => 0,
    }
}

/// From any stage on, a start-up asks for no more logins and writes than its
/// stage leaves it.
pub proof fn lemma_session_within_bounds(m: SessionManagerView, outcomes: Seq<SessionOutcome>)
    ensures
        session_count(session_run(m, outcomes), |a: SessionActionView| is_login(a))
            <= logins_left(m.stage),
        session_count(session_run(m, outcomes), |a: SessionActionView| is_save(a)) <= saves_left(
            m.stage,
        ),
    decreases outcomes.len(),
{
    if outcomes.len() > 0 {
        let next = session_step(m, outcomes[0]);
        let rest = session_run(next.0, outcomes.drop_first());
        lemma_session_within_bounds(next.0, outcomes.drop_first());
        assert((seq![next.1] + rest).drop_first() =~= rest);
        assert((seq![next.1] + rest)[0] == next.1);
    }
}

/// A start-up logs in at most once and writes a session at most once,
/// whatever is reported to it.
pub proof fn lemma_session_written_once(
    user_id: Seq<char>,
    password: Seq<char>,
    outcomes: Seq<SessionOutcome>,
)
    ensures
        ({
            let start = session_begin(user_id, password);
            let actions = seq![start.1] + session_run(start.0, outcomes);
            &&& session_count(actions, |a: SessionActionView| is_login(a)) <= 1
            &&& session_count(actions, |a: SessionActionView| is_save(a)) <= 1
        }),
{
    let start = session_begin(user_id, password);
    let rest = session_run(start.0, outcomes);
    lemma_session_within_bounds(start.0, outcomes);
    assert((seq![start.1] + rest).drop_first() =~= rest);
    assert((seq![start.1] + rest)[0] == start.1);
}

/// A session is written only after a login that followed a lookup without a
/// record, and what is written is what the login gave, under the relay's
/// own identifier.
pub proof fn lemma_session_written_after_login(
    m: SessionManagerView,
    outcome: SessionOutcome,
)
    requires
        session_step(m, outcome).1 is SaveSession,
    ensures
        m.stage is LoggingIn,
        outcome is LoggedIn,
        outcome->LoggedIn_0 is Some,
        session_step(m, outcome).1 == (SessionActionView::SaveSession {
            user_id: m.user_id,
            access_token: outcome->LoggedIn_0->0.access_token@,
            device_id: outcome->LoggedIn_0->0.device_id@,
        }),
{
}

/// The login stage is reached only from a lookup that found no record, and
/// the login is made with the relay's own identifier and password.
pub proof fn lemma_login_after_empty_lookup(m: SessionManagerView, outcome: SessionOutcome)
    requires
        session_step(m, outcome).1 is Login || session_step(m, outcome).0.stage is LoggingIn,
    ensures
        m.stage is Loading,
        outcome is Loaded,
        outcome->Loaded_0 is None,
        session_step(m, outcome).1 == (SessionActionView::Login {
            user_id: m.user_id,
            password: m.password,
        }),
{
}

} // verus!
