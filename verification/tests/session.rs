use braiinspool_bot::bot::session::{
    ActiveSession, SessionAction, SessionManager, SessionOutcome, SessionStage,
};
use braiinspool_bot::bot::{Bot, Error};
use braiinspool_bot::db::Session;

fn start() -> SessionManager {
    let bot = Bot { user_id: "@bot:example.org".to_string(), password: "secret".to_string() };
    let (manager, action) = bot.resume_or_login();
    match action {
        SessionAction::LoadSession { user_id } => assert_eq!(user_id, "@bot:example.org"),
        other => panic!("{:?}", other),
    }
    assert!(matches!(manager.stage, SessionStage::Loading));
    manager
}

fn session() -> Session {
    Session { access_token: "token".to_string(), device_id: "DEVICE".to_string() }
}

#[test]
fn stored_session_is_resumed_without_login() {
    let (manager, action) = start().advance(SessionOutcome::Loaded(Some(session())));
    match action {
        SessionAction::Restore { user_id, access_token, device_id } => {
            assert_eq!(user_id, "@bot:example.org");
            assert_eq!(access_token, "token");
            assert_eq!(device_id, "DEVICE");
        }
        other => panic!("{:?}", other),
    }
    let (manager, action) = manager.advance(SessionOutcome::Restored);
    assert!(matches!(action, SessionAction::Ready(ActiveSession::Resumed)));
    assert!(matches!(manager.stage, SessionStage::Settled));
    let (_, action) = manager.advance(SessionOutcome::LoggedIn(None));
    assert!(matches!(action, SessionAction::Nothing));
}

#[test]
fn stored_session_never_leads_to_a_login() {
    let after: [fn() -> SessionOutcome; 5] = [
        || SessionOutcome::Loaded(None),
        || SessionOutcome::Restored,
        || SessionOutcome::LoggedIn(None),
        || SessionOutcome::Saved,
        || SessionOutcome::Failed(Error::Transport("down".to_string())),
    ];
    for first in after {
        for second in after {
            let (manager, _) = start().advance(SessionOutcome::Loaded(Some(session())));
            let (manager, action) = manager.advance(first());
            assert!(!matches!(action, SessionAction::Login { .. }));
            let (_, action) = manager.advance(second());
            assert!(!matches!(action, SessionAction::Login { .. }));
        }
    }
}

#[test]
fn without_stored_session_the_relay_logs_in_and_saves() {
    let (manager, action) = start().advance(SessionOutcome::Loaded(None));
    match action {
        SessionAction::Login { user_id, password } => {
            assert_eq!(user_id, "@bot:example.org");
            assert_eq!(password, "secret");
        }
        other => panic!("{:?}", other),
    }
    let (manager, action) = manager.advance(SessionOutcome::LoggedIn(Some(session())));
    match action {
        SessionAction::SaveSession { user_id, access_token, device_id } => {
            assert_eq!(user_id, "@bot:example.org");
            assert_eq!(access_token, "token");
            assert_eq!(device_id, "DEVICE");
        }
        other => panic!("{:?}", other),
    }
    let (_, action) = manager.advance(SessionOutcome::Saved);
    assert!(matches!(action, SessionAction::Ready(ActiveSession::Fresh)));
}

#[test]
fn login_without_credentials_goes_on_unsaved() {
    let (manager, _) = start().advance(SessionOutcome::Loaded(None));
    let (manager, action) = manager.advance(SessionOutcome::LoggedIn(None));
    assert!(matches!(action, SessionAction::Ready(ActiveSession::Unsaved)));
    assert!(matches!(manager.stage, SessionStage::Settled));
}

#[test]
fn rejected_login_ends_the_start_up() {
    let (manager, _) = start().advance(SessionOutcome::Loaded(None));
    let rejected = SessionOutcome::Failed(Error::Auth("M_FORBIDDEN".to_string()));
    let (manager, action) = manager.advance(rejected);
    match action {
        SessionAction::GiveUp(Error::Auth(description)) => assert_eq!(description, "M_FORBIDDEN"),
        other => panic!("{:?}", other),
    }
    let (_, action) = manager.advance(SessionOutcome::LoggedIn(Some(session())));
    assert!(matches!(action, SessionAction::Nothing));
}

#[test]
fn store_failure_ends_the_start_up() {
    let failed = || SessionOutcome::Failed(Error::Store("io".to_string()));
    let (_, action) = start().advance(failed());
    assert!(matches!(action, SessionAction::GiveUp(Error::Store(_))));

    let (manager, _) = start().advance(SessionOutcome::Loaded(None));
    let (manager, _) = manager.advance(SessionOutcome::LoggedIn(Some(session())));
    let (_, action) = manager.advance(failed());
    assert!(matches!(action, SessionAction::GiveUp(Error::Store(_))));
}

#[test]
fn failed_resume_ends_the_start_up() {
    let (manager, _) = start().advance(SessionOutcome::Loaded(Some(session())));
    let failed = SessionOutcome::Failed(Error::Transport("unreachable".to_string()));
    let (_, action) = manager.advance(failed);
    assert!(matches!(action, SessionAction::GiveUp(Error::Transport(_))));
}

#[test]
fn outcome_that_answers_nothing_ends_the_start_up() {
    let (manager, action) = start().advance(SessionOutcome::Saved);
    assert!(matches!(action, SessionAction::Nothing));
    assert!(matches!(manager.stage, SessionStage::Settled));
}
