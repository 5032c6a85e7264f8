use braiinspool_bot::bot::command::{Command, Query};
use braiinspool_bot::bot::dispatch::{Action, Dispatch, Outcome, Stage};
use braiinspool_bot::bot::pool::{DailyReward, PoolStats, UserProfile, Worker};
use braiinspool_bot::bot::{Bot, Error, Membership, RoomMessage};
use braiinspool_bot::db::User;
use std::collections::HashMap;

const BOT: &str = "@bot:example.org";
const ALICE: &str = "@alice:example.org";
const ROOM: &str = "!room:example.org";

fn bot() -> Bot {
    Bot { user_id: BOT.to_string(), password: "secret".to_string() }
}

fn message(sender: &str, room: &str, body: &str) -> RoomMessage {
    RoomMessage {
        sender: sender.to_string(),
        room_id: room.to_string(),
        event_id: "$event".to_string(),
        membership: Membership::Joined,
        body: Some(body.to_string()),
    }
}

fn profile() -> UserProfile {
    UserProfile {
        confirmed_reward: 1,
        unconfirmed_reward: 2,
        estimated_reward: 3,
        hash_rate_5m: 4,
        hash_rate_60m: 5,
        hash_rate_24h: 6,
        hash_rate_scoring: 7,
        hash_rate_yesterday: 8,
        ok_workers: 9,
        low_workers: 10,
        off_workers: 11,
        dis_workers: 12,
    }
}

/// What the outside did while a message was handled.
struct Seen {
    sent: Vec<(String, String)>,
    fetched: Vec<String>,
    tor_probes: usize,
    redacted: Vec<(String, String)>,
    writes: usize,
}

/// Carries the handling of a message to its end against a store in memory
/// and a pool that answers every query.
fn handle(store: &mut HashMap<String, User>, event: RoomMessage) -> Seen {
    let mut seen =
        Seen { sent: Vec::new(), fetched: Vec::new(), tor_probes: 0, redacted: Vec::new(), writes: 0 };
    let (mut dispatch, mut action) = bot().on_room_message(event);
    loop {
        let outcome = match action {
            Action::Nothing => break,
            Action::FindSubscription { user_id } => Outcome::Subscription(store.get(&user_id).cloned()),
            Action::Fetch { query, token } => {
                seen.fetched.push(token);
                match query {
                    Query::UserStatus => Outcome::Profile(profile()),
                    Query::Workers => Outcome::Workers(Vec::new()),
                    Query::DailyRewards => Outcome::DailyRewards(Vec::new()),
                    Query::PoolStatus => Outcome::PoolStats(PoolStats {
                        luck_b10: "1".to_string(),
                        luck_b50: "2".to_string(),
                        luck_b250: "3".to_string(),
                        pool_scoring_hash_rate: 4000,
                        pool_active_workers: 5000,
                        round_probability: "0.6".to_string(),
                    }),
                }
            }
            Action::CheckTor => {
                seen.tor_probes += 1;
                Outcome::Tor(true)
            }
            Action::CreateSubscription { user_id, room_id, token } => {
                seen.writes += 1;
                store.insert(user_id, User { room_id, token });
                Outcome::Done
            }
            Action::DeleteSubscription { user_id } => {
                seen.writes += 1;
                store.remove(&user_id);
                Outcome::Done
            }
            Action::Redact { room_id, event_id } => {
                seen.redacted.push((room_id, event_id));
                Outcome::Done
            }
            Action::Send { room_id, text } => {
                seen.sent.push((room_id, text));
                Outcome::Done
            }
        };
        let next = dispatch.advance(outcome);
        dispatch = next.0;
        action = next.1;
    }
    assert!(matches!(dispatch.stage, Stage::Finished));
    seen
}

fn only_reply(seen: &Seen) -> &str {
    assert_eq!(seen.sent.len(), 1);
    assert_eq!(seen.sent[0].0, ROOM);
    &seen.sent[0].1
}

fn subscribed() -> HashMap<String, User> {
    let mut store = HashMap::new();
    store.insert(
        ALICE.to_string(),
        User { room_id: "!other:example.org".to_string(), token: "tok".to_string() },
    );
    store
}

#[test]
fn command_names_are_exact() {
    assert!(matches!(Command::parse("!userstatus"), Command::UserStatus));
    assert!(matches!(Command::parse("!workers"), Command::Workers));
    assert!(matches!(Command::parse("!dailyrewards"), Command::DailyRewards));
    assert!(matches!(Command::parse("!poolstatus"), Command::PoolStatus));
    assert!(matches!(Command::parse("!subscribe"), Command::Subscribe));
    assert!(matches!(Command::parse("!unlink"), Command::Unlink));
    assert!(matches!(Command::parse("!checktor"), Command::CheckTor));
    assert!(matches!(Command::parse("!help"), Command::Help));
    assert!(matches!(Command::parse("!Help"), Command::Unknown));
    assert!(matches!(Command::parse("help"), Command::Unknown));
    assert!(matches!(Command::parse("!helps"), Command::Unknown));
    assert!(matches!(Command::parse(""), Command::Unknown));
}

#[test]
fn command_query() {
    assert!(matches!(Command::UserStatus.query(), Some(Query::UserStatus)));
    assert!(matches!(Command::Workers.query(), Some(Query::Workers)));
    assert!(matches!(Command::DailyRewards.query(), Some(Query::DailyRewards)));
    assert!(matches!(Command::PoolStatus.query(), Some(Query::PoolStatus)));
    assert!(Command::Subscribe.query().is_none());
    assert!(Command::Help.query().is_none());
}

#[test]
fn queries_without_subscription_are_refused_without_a_pool_call() {
    for body in ["!userstatus", "!workers", "!dailyrewards", "!poolstatus", "!workers now"] {
        let mut store = HashMap::new();
        let seen = handle(&mut store, message(ALICE, ROOM, body));
        assert_eq!(only_reply(&seen), "This account in not subscribed.");
        assert!(seen.fetched.is_empty());
        assert_eq!(seen.tor_probes, 0);
        assert_eq!(seen.writes, 0);
    }
}

#[test]
fn queries_with_subscription_call_the_pool_with_the_token() {
    let mut store = subscribed();
    let seen = handle(&mut store, message(ALICE, ROOM, "!userstatus"));
    assert_eq!(seen.fetched, vec!["tok".to_string()]);
    assert_eq!(
        only_reply(&seen),
        "User Status\n\nReward: 1 SAT\nUnconfirmed reward: 2 SAT\nEstimate reward (block): 3 SAT\n\n\
         Hashrate 5m: 4 Th/s\nHashrate 60m: 5 Th/s\nHashrate 24h: 6 Th/s\nHashrate scoring: 7 Th/s\n\
         Hashrate yesterday: 8 Th/s\n\nOk workers: 9\nLow workers: 10\nOff workers: 11\n\
         Disabled workers: 12"
    );
    let seen = handle(&mut store, message(ALICE, ROOM, "!workers"));
    assert_eq!(only_reply(&seen), "Workers\n\n");
    let seen = handle(&mut store, message(ALICE, ROOM, "!dailyrewards"));
    assert_eq!(only_reply(&seen), "Daily Rewards\n\n");
    let seen = handle(&mut store, message(ALICE, ROOM, "!poolstatus"));
    assert_eq!(
        only_reply(&seen),
        "Pool Status\n\nLuck 10 blocks: 1\nLuck 50 blocks: 2\nLuck 250 blocks: 3\n\
         Hashrate scoring: 4,000 Th/s\nActive workers: 5,000\nRound probability: 0.6\n"
    );
    assert_eq!(seen.fetched.len(), 1);
    assert_eq!(seen.writes, 0);
}

#[test]
fn subscribe_stores_the_token_and_redacts_the_message() {
    let mut store = HashMap::new();
    let seen = handle(&mut store, message(ALICE, ROOM, "!subscribe foo"));
    assert_eq!(only_reply(&seen), "Subscribed");
    assert_eq!(seen.redacted, vec![(ROOM.to_string(), "$event".to_string())]);
    assert_eq!(seen.writes, 1);
    assert_eq!(store.len(), 1);
    assert_eq!(store[ALICE].room_id, ROOM);
    assert_eq!(store[ALICE].token, "foo");
}

#[test]
fn subscribe_takes_the_word_after_the_command() {
    let mut store = HashMap::new();
    handle(&mut store, message(ALICE, ROOM, "!subscribe foo bar"));
    assert_eq!(store[ALICE].token, "foo");
}

#[test]
fn subscribe_twice_is_refused_from_any_room() {
    for room in [ROOM, "!other:example.org", "!third:example.org"] {
        let mut store = subscribed();
        let seen = handle(&mut store, message(ALICE, room, "!subscribe bar"));
        assert_eq!(seen.sent, vec![(room.to_string(), "This account is already subscribed".to_string())]);
        assert_eq!(seen.writes, 0);
        assert!(seen.redacted.is_empty());
        assert_eq!(store[ALICE].token, "tok");
        assert_eq!(store[ALICE].room_id, "!other:example.org");
    }
}

#[test]
fn subscribe_without_token_asks_for_one() {
    for body in ["!subscribe", "!subscribe ", "!subscribe  foo"] {
        let mut store = HashMap::new();
        let seen = handle(&mut store, message(ALICE, ROOM, body));
        assert_eq!(
            only_reply(&seen),
            "Please provide a token.\nTo subscribe send: !subscribe <token>"
        );
        assert!(store.is_empty());
        assert!(seen.redacted.is_empty());
    }
}

#[test]
fn unlink_removes_the_subscription() {
    let mut store = subscribed();
    let seen = handle(&mut store, message(ALICE, ROOM, "!unlink"));
    assert_eq!(only_reply(&seen), "Unlinked");
    assert!(store.is_empty());
    let seen = handle(&mut store, message(ALICE, ROOM, "!unlink"));
    assert_eq!(only_reply(&seen), "No token linked to this account");
    assert_eq!(seen.writes, 0);
}

#[test]
fn subscribe_then_unlink_leaves_no_record() {
    let mut store = HashMap::new();
    let seen = handle(&mut store, message(ALICE, ROOM, "!subscribe foo"));
    assert_eq!(only_reply(&seen), "Subscribed");
    let seen = handle(&mut store, message(ALICE, ROOM, "!unlink"));
    assert_eq!(only_reply(&seen), "Unlinked");
    assert!(store.is_empty());
    let seen = handle(&mut store, message(ALICE, ROOM, "!userstatus"));
    assert_eq!(only_reply(&seen), "This account in not subscribed.");
    assert!(seen.fetched.is_empty());
}

#[test]
fn own_message_has_no_effect() {
    let mut store = subscribed();
    for body in ["!userstatus", "!subscribe foo", "!unlink", "!help", "!bogus", "!checktor"] {
        let (dispatch, action) = bot().on_room_message(message(BOT, ROOM, body));
        assert!(matches!(action, Action::Nothing));
        assert!(matches!(dispatch.stage, Stage::Finished));
        let seen = handle(&mut store, message(BOT, ROOM, body));
        assert!(seen.sent.is_empty());
        assert!(seen.fetched.is_empty());
        assert!(seen.redacted.is_empty());
        assert_eq!(seen.tor_probes, 0);
        assert_eq!(seen.writes, 0);
    }
    assert_eq!(store.len(), 1);
}

#[test]
fn message_from_a_room_not_joined_is_passed_over() {
    for membership in [Membership::Invited, Membership::Left] {
        let mut event = message(ALICE, ROOM, "!help");
        event.membership = membership;
        let (_, action) = bot().on_room_message(event);
        assert!(matches!(action, Action::Nothing));
    }
}

#[test]
fn message_that_is_not_text_is_passed_over() {
    let mut event = message(ALICE, ROOM, "");
    event.body = None;
    let (_, action) = bot().on_room_message(event);
    assert!(matches!(action, Action::Nothing));
}

#[test]
fn unknown_command_is_invalid() {
    for body in ["!bogus", "hello", "", " !help", "!HELP", "!help\n", "userstatus"] {
        let mut store = subscribed();
        let seen = handle(&mut store, message(ALICE, ROOM, body));
        assert_eq!(only_reply(&seen), "Invalid command");
        assert!(seen.fetched.is_empty());
        assert_eq!(seen.writes, 0);
    }
}

#[test]
fn help_lists_the_commands() {
    let mut store = HashMap::new();
    let seen = handle(&mut store, message(ALICE, ROOM, "!help"));
    assert_eq!(
        only_reply(&seen),
        "!userstatus - Get user status\n\
         !workers - Get workers\n\
         !dailyrewards - Get daily rewards\n\
         !poolstatus - Get pool status\n\
         !subscribe <token> - Subscribe with token\n\
         !unlink - Unlink account from token\n\
         !checktor - Check Tor connection\n\
         !help - Help"
    );
}

#[test]
fn checktor_needs_no_subscription() {
    let mut store = HashMap::new();
    let seen = handle(&mut store, message(ALICE, ROOM, "!checktor"));
    assert_eq!(seen.tor_probes, 1);
    assert_eq!(only_reply(&seen), "Connected to Tor Network");
    let (dispatch, action) = bot().on_room_message(message(ALICE, ROOM, "!checktor"));
    assert!(matches!(action, Action::CheckTor));
    let (_, action) = dispatch.advance(Outcome::Tor(false));
    match action {
        Action::Send { text, .. } => assert_eq!(text, "NOT connected to Tor Network"),
        other => panic!("{:?}", other),
    }
}

fn sent_text(action: Action) -> String {
    match action {
        Action::Send { room_id, text } => {
            assert_eq!(room_id, ROOM);
            text
        }
        other => panic!("{:?}", other),
    }
}

#[test]
fn failures_are_reported_to_the_room() {
    let (dispatch, _) = bot().on_room_message(message(ALICE, ROOM, "!userstatus"));
    let (dispatch, action) = dispatch.advance(Outcome::Failed(Error::Store("disk".to_string())));
    assert_eq!(sent_text(action), "StoreError: disk");
    assert!(matches!(dispatch.stage, Stage::Reporting));
    let (dispatch, action) = dispatch.advance(Outcome::Done);
    assert!(matches!(action, Action::Nothing));
    assert!(matches!(dispatch.stage, Stage::Finished));

    let (dispatch, _) = bot().on_room_message(message(ALICE, ROOM, "!workers"));
    let found = Some(User { room_id: ROOM.to_string(), token: "tok".to_string() });
    let (dispatch, action) = dispatch.advance(Outcome::Subscription(found));
    assert!(matches!(action, Action::Fetch { query: Query::Workers, .. }));
    let failed = Outcome::Failed(Error::RemoteApi("Unauthorized".to_string()));
    let (_, action) = dispatch.advance(failed);
    assert_eq!(sent_text(action), "RemoteApiError: Unauthorized");

    let (dispatch, _) = bot().on_room_message(message(ALICE, ROOM, "!checktor"));
    let (_, action) = dispatch.advance(Outcome::Failed(Error::RemoteApi("down".to_string())));
    assert_eq!(sent_text(action), "RemoteApiError: down");
}

#[test]
fn failed_store_write_is_reported_and_nothing_is_redacted() {
    let (dispatch, _) = bot().on_room_message(message(ALICE, ROOM, "!subscribe foo"));
    let (dispatch, action) = dispatch.advance(Outcome::Subscription(None));
    assert!(matches!(action, Action::CreateSubscription { .. }));
    let (dispatch, action) = dispatch.advance(Outcome::Failed(Error::Store("full".to_string())));
    assert_eq!(sent_text(action), "StoreError: full");
    let (_, action) = dispatch.advance(Outcome::Done);
    assert!(matches!(action, Action::Nothing));
}

#[test]
fn failed_redaction_is_passed_over() {
    let (dispatch, _) = bot().on_room_message(message(ALICE, ROOM, "!subscribe foo"));
    let (dispatch, _) = dispatch.advance(Outcome::Subscription(None));
    let (dispatch, action) = dispatch.advance(Outcome::Done);
    assert!(matches!(action, Action::Redact { .. }));
    let failed = Outcome::Failed(Error::Transport("forbidden".to_string()));
    let (_, action) = dispatch.advance(failed);
    assert_eq!(sent_text(action), "Subscribed");
}

#[test]
fn failed_reply_is_reported_once() {
    let (dispatch, action) = bot().on_room_message(message(ALICE, ROOM, "!help"));
    assert!(matches!(action, Action::Send { .. }));
    let failed = Outcome::Failed(Error::Transport("timeout".to_string()));
    let (dispatch, action) = dispatch.advance(failed);
    assert_eq!(sent_text(action), "TransportError: timeout");
    let failed = Outcome::Failed(Error::Transport("timeout".to_string()));
    let (dispatch, action) = dispatch.advance(failed);
    assert!(matches!(action, Action::Nothing));
    assert!(matches!(dispatch.stage, Stage::Finished));
}

#[test]
fn outcome_that_answers_nothing_ends_the_handling() {
    let (dispatch, _) = bot().on_room_message(message(ALICE, ROOM, "!userstatus"));
    let (dispatch, action) = dispatch.advance(Outcome::Tor(true));
    assert!(matches!(action, Action::Nothing));
    let (_, action) = dispatch.advance(Outcome::Subscription(None));
    assert!(matches!(action, Action::Nothing));

    let (dispatch, _) = bot().on_room_message(message(ALICE, ROOM, "!userstatus"));
    let found = Some(User { room_id: ROOM.to_string(), token: "tok".to_string() });
    let (dispatch, _) = dispatch.advance(Outcome::Subscription(found));
    let (_, action) = dispatch.advance(Outcome::Workers(Vec::new()));
    assert!(matches!(action, Action::Nothing));
}

#[test]
fn pool_answers_become_the_reply() {
    let found = || Some(User { room_id: ROOM.to_string(), token: "tok".to_string() });
    let (dispatch, _) = bot().on_room_message(message(ALICE, ROOM, "!workers"));
    let (dispatch, _) = dispatch.advance(Outcome::Subscription(found()));
    let workers = vec![Worker {
        name: "alice.rig".to_string(),
        state: "ok".to_string(),
        last_share: 1646649012,
        hash_rate_scoring: 1,
        hash_rate_5m: 2,
        hash_rate_60m: 3,
        hash_rate_24h: 4,
    }];
    let (_, action) = dispatch.advance(Outcome::Workers(workers));
    assert_eq!(
        sent_text(action),
        "Workers\n\nWorker: rig\nStatus: ok\nLast share: 2022-03-07 10:30:12\n\
         Hashrate scoring: 1 Th/s\nHashrate 5m: 2 Th/s\nHashrate 60m: 3 Th/s\nHashrate 24h: 4 Th/s\n\n"
    );

    let (dispatch, _) = bot().on_room_message(message(ALICE, ROOM, "!dailyrewards"));
    let (dispatch, _) = dispatch.advance(Outcome::Subscription(found()));
    let rewards = vec![DailyReward { date: 1646649012, total_reward: 1500 }];
    let (_, action) = dispatch.advance(Outcome::DailyRewards(rewards));
    assert_eq!(sent_text(action), "Daily Rewards\n\n2022-03-07: 1,500 SAT\n");
}

#[test]
fn error_descriptions() {
    assert_eq!(Error::Auth("bad password".to_string()).describe(), "AuthError: bad password");
    assert_eq!(Error::Store("io".to_string()).describe(), "StoreError: io");
    assert_eq!(Error::RemoteApi("Not Found".to_string()).describe(), "RemoteApiError: Not Found");
    assert_eq!(Error::Transport("".to_string()).describe(), "TransportError: ");
}

#[test]
fn subscription_room() {
    let user = User { room_id: ROOM.to_string(), token: "tok".to_string() };
    assert!(user.is_in_room(ROOM));
    assert!(!user.is_in_room("!other:example.org"));
}

#[test]
fn dispatch_keeps_the_message() {
    let (dispatch, _): (Dispatch, Action) =
        bot().on_room_message(message(ALICE, ROOM, "!subscribe foo bar"));
    assert_eq!(dispatch.sender, ALICE);
    assert_eq!(dispatch.room_id, ROOM);
    assert_eq!(dispatch.event_id, "$event");
    assert_eq!(dispatch.argument.as_deref(), Some("foo"));
    assert!(matches!(dispatch.stage, Stage::Lookup(Command::Subscribe)));
}
