//! The handling of one room message, one step at a time.

use vstd::prelude::*;
use crate::bot::command::{command_of, query_of, Command, Query};
use crate::bot::pool::{
    daily_rewards_text, pool_status_text, render_daily_rewards, render_pool_status,
    render_user_status, render_workers, user_status_text, workers_text, DailyReward, PoolStats,
    UserProfile, Worker,
};
use crate::bot::{error_text, Bot, Error, ErrorView, Membership, RoomMessage};
use crate::db::{found_user, User, UserView};
use crate::text::{first_word, same_text, second_word, split_once};

verus! {

/// The reply to a query from a user who has linked no account.
pub const NOT_SUBSCRIBED: &'static str = "This account in not subscribed.";

/// The reply to a subscription from a user who has one already.
pub const ALREADY_SUBSCRIBED: &'static str = "This account is already subscribed";

/// The reply to a subscription that names no token.
pub const TOKEN_MISSING: &'static str =
    "Please provide a token.\nTo subscribe send: !subscribe <token>";

/// The reply to a subscription that was stored.
pub const SUBSCRIBED: &'static str = "Subscribed";

/// The reply to an unlinking that removed the subscription.
pub const UNLINKED: &'static str = "Unlinked";

/// The reply to an unlinking from a user who has linked no account.
pub const NOT_LINKED: &'static str = "No token linked to this account";

/// The reply to a probe that went through the Tor network.
pub const TOR_CONNECTED: &'static str = "Connected to Tor Network";

/// The reply to a probe that did not.
pub const TOR_NOT_CONNECTED: &'static str = "NOT connected to Tor Network";

/// The reply to a first word that is no command.
pub const INVALID_COMMAND: &'static str = "Invalid command";

/// The reply to a request for help.
pub const HELP: &'static str =
    "!userstatus - Get user status\n!workers - Get workers\n!dailyrewards - Get daily rewards\n!poolstatus - Get pool status\n!subscribe <token> - Subscribe with token\n!unlink - Unlink account from token\n!checktor - Check Tor connection\n!help - Help";

/// One piece of outside work that the handling of a message asks for.
#[derive(Clone, Debug)]
pub enum Action {
    /// The handling is over.
    Nothing,
    /// Look up the subscription of `user_id`.
    FindSubscription { user_id: String },
    /// Ask the pool, with the account's `token`.
    Fetch { query: Query, token: String },
    /// Probe whether the pool is reached through the Tor network.
    CheckTor,
    /// Store a subscription under `user_id`.
    CreateSubscription { user_id: String, room_id: String, token: String },
    /// Remove the subscription of `user_id`.
    DeleteSubscription { user_id: String },
    /// Try to take the message `event_id` out of the room's history.
    Redact { room_id: String, event_id: String },
    /// Send `text` to the room.
    Send { room_id: String, text: String },
}

/// An [`Action`] as plain text.
pub ghost enum ActionView {
    Nothing,
    FindSubscription { user_id: Seq<char> },
    Fetch { query: Query, token: Seq<char> },
    CheckTor,
    CreateSubscription { user_id: Seq<char>, room_id: Seq<char>, token: Seq<char> },
    DeleteSubscription { user_id: Seq<char> },
    Redact { room_id: Seq<char>, event_id: Seq<char> },
    Send { room_id: Seq<char>, text: Seq<char> },
}

impl View for Action {
    type V = ActionView;

    open spec fn view(&self) -> ActionView {
        match *self {
            Action::Nothing => ActionView::Nothing,
            Action::FindSubscription { user_id } => ActionView::FindSubscription {
                user_id: user_id@,
            },
            Action::Fetch { query, token } => ActionView::Fetch { query, token: token@ },
            Action::CheckTor => ActionView::CheckTor,
            Action::CreateSubscription { user_id, room_id, token } => {
                ActionView::CreateSubscription {
                    user_id: user_id@,
                    room_id: room_id@,
                    token: token@,
                }
            },
            Action::DeleteSubscription { user_id } => ActionView::DeleteSubscription {
                user_id: user_id@,
            },
            Action::Redact { room_id, event_id } => ActionView::Redact {
                room_id: room_id@,
                event_id: event_id@,
            },
            Action::Send { room_id, text } => ActionView::Send { room_id: room_id@, text: text@ },
        }
    }
}

/// What came of the action that was asked for last.
#[derive(Clone, Debug)]
pub enum Outcome {
    /// The subscription that was looked up; `None` where there is none.
    Subscription(Option<User>),
    /// The pool's answer to a status query.
    Profile(UserProfile),
    /// The pool's answer to a workers query, in the order to show them.
    Workers(Vec<Worker>),
    /// The pool's answer to a rewards query.
    DailyRewards(Vec<DailyReward>),
    /// The pool's answer to a pool query.
    PoolStats(PoolStats),
    /// Whether the probe went through the Tor network.
    Tor(bool),
    /// The store wrote, the room took the message, or the redaction went
    /// through.
    Done,
    /// The action failed.
    Failed(Error),
}

/// Where the handling of a message stands: what it waits for.
#[derive(Clone, Copy, Debug)]
pub enum Stage {
    /// The sender's subscription, for the command.
    Lookup(Command),
    /// The pool's answer to the query.
    Fetching(Query),
    /// The result of the Tor probe.
    Probing,
    /// The store, to hold the new subscription.
    Creating,
    /// The attempt to redact the message that held the token.
    Redacting,
    /// The store, to drop the subscription.
    Deleting,
    /// The room, to take the reply.
    Replying,
    /// The room, to take the report of a failure.
    Reporting,
    /// Nothing.
    Finished,
}

/// The handling of one message.
#[derive(Clone, Debug)]
pub struct Dispatch {
    pub stage: Stage,
    pub sender: String,
    pub room_id: String,
    pub event_id: String,
    /// The word after the command, where the message has one.
    pub argument: Option<String>,
}

/// A [`Dispatch`] as plain text.
pub ghost struct DispatchView {
    pub stage: Stage,
    pub sender: Seq<char>,
    pub room_id: Seq<char>,
    pub event_id: Seq<char>,
    pub argument: Option<Seq<char>>,
}

impl View for Dispatch {
    type V = DispatchView;

    open spec fn view(&self) -> DispatchView {
        DispatchView {
            stage: self.stage,
            sender: self.sender@,
            room_id: self.room_id@,
            event_id: self.event_id@,
            argument: match self.argument {
                Some(word) => Some(word@),
                None => None,
            },
        }
    }
}

/// The handling at another stage.
pub open spec fn at(d: DispatchView, stage: Stage) -> DispatchView {
    DispatchView { stage, ..d }
}

/// The step that ends the handling.
pub open spec fn finish(d: DispatchView) -> (DispatchView, ActionView) {
    (at(d, Stage::Finished), ActionView::Nothing)
}

/// The step that sends the reply.
pub open spec fn reply(d: DispatchView, text: Seq<char>) -> (DispatchView, ActionView) {
    (at(d, Stage::Replying), ActionView::Send { room_id: d.room_id, text })
}

/// The step that sends the report of a failure.
pub open spec fn report(d: DispatchView, error: ErrorView) -> (DispatchView, ActionView) {
    (at(d, Stage::Reporting), ActionView::Send { room_id: d.room_id, text: error_text(error) })
}

/// Whether a message is handled at all: it comes from someone else, from a
/// room that the relay has joined, and it is plain text.
pub open spec fn accepts(bot: Seq<char>, event: RoomMessage) -> bool {
    &&& event.sender@ != bot
    &&& event.membership is Joined
    &&& event.body is Some
}

/// The first step of the handling of a message.
pub open spec fn begin(bot: Seq<char>, event: RoomMessage) -> (DispatchView, ActionView) {
    let d = DispatchView {
        stage: Stage::Finished,
        sender: event.sender@,
        room_id: event.room_id@,
        event_id: event.event_id@,
        argument: None,
    };
    if !accepts(bot, event) {
        (d, ActionView::Nothing)
    } else {
        let body = event.body->0@;
        let d = DispatchView { argument: second_word(body), ..d };
        match command_of(first_word(body)) {
            Command::CheckTor => (at(d, Stage::Probing), ActionView::CheckTor),
            Command::Help => reply(d, HELP@),
            Command::Unknown => reply(d, INVALID_COMMAND@),
            command => (
                at(d, Stage::Lookup(command)),
                ActionView::FindSubscription { user_id: d.sender },
            ),
        }
    }
}

/// The step after the lookup, for a command that needs the subscription.
pub open spec fn resolve(d: DispatchView, command: Command, found: Option<UserView>) -> (
    DispatchView,
    ActionView,
) {
    match command {
        Command::Subscribe => match found {
            Some(_) => reply(d, ALREADY_SUBSCRIBED@),
            None => match d.argument {
                Some(token) => if token.len() > 0 {
                    (
                        at(d, Stage::Creating),
                        ActionView::CreateSubscription {
                            user_id: d.sender,
                            room_id: d.room_id,
                            token,
                        },
                    )
                } else {
                    reply(d, TOKEN_MISSING@)
                },
                None => reply(d, TOKEN_MISSING@),
            },
        },
        Command::Unlink => match found {
            Some(_) => (
                at(d, Stage::Deleting),
                ActionView::DeleteSubscription { user_id: d.sender },
            ),
            None => reply(d, NOT_LINKED@),
        },
        _ => match query_of(command) {
            Some(query) => match found {
                Some(user) => (
                    at(d, Stage::Fetching(query)),
                    ActionView::Fetch { query, token: user.token },
                ),
                None => reply(d, NOT_SUBSCRIBED@),
            },
            None => finish(d),
        },
    }
}

/// The reply to a Tor probe.
pub open spec fn tor_text(through: bool) -> Seq<char> {
    if through {
        TOR_CONNECTED@
    } else {
        TOR_NOT_CONNECTED@
    }
}

/// The step that follows an outcome.
///
/// A failure of the lookup, of the pool, of the probe or of a store write
/// ends the command and is reported to the room. A redaction that fails is
/// passed over. A reply that the room does not take is followed by one
/// attempt to report that. An outcome that does not answer the action asked
/// for ends the handling.
pub open spec fn step(d: DispatchView, outcome: Outcome) -> (DispatchView, ActionView) {
    match d.stage {
        Stage::Lookup(command) => match outcome {
            Outcome::Subscription(found) => resolve(d, command, found_user(found)),
            Outcome::Failed(error) => report(d, error@),
            _ => finish(d),
        },
        Stage::Fetching(query) => match outcome {
            Outcome::Profile(profile) => match query {
                Query::UserStatus => reply(d, user_status_text(profile)),
                _ => finish(d),
            },
            Outcome::Workers(workers) => match query {
                Query::Workers => reply(d, workers_text(workers@)),
                _ => finish(d),
            },
            Outcome::DailyRewards(rewards) => match query {
                Query::DailyRewards => reply(d, daily_rewards_text(rewards@)),
                _ => finish(d),
            },
            Outcome::PoolStats(stats) => match query {
                Query::PoolStatus => reply(d, pool_status_text(stats)),
                _ => finish(d),
            },
            Outcome::Failed(error) => report(d, error@),
            _ => finish(d),
        },
        Stage::Probing => match outcome {
            Outcome::Tor(through) => reply(d, tor_text(through)),
            Outcome::Failed(error) => report(d, error@),
            _ => finish(d),
        },
        Stage::Creating => match outcome {
            Outcome::Done => (
                at(d, Stage::Redacting),
                ActionView::Redact { room_id: d.room_id, event_id: d.event_id },
            ),
            Outcome::Failed(error) => report(d, error@),
            _ => finish(d),
        },
        Stage::Redacting => match outcome {
            Outcome::Done => reply(d, SUBSCRIBED@),
            Outcome::Failed(_) => reply(d, SUBSCRIBED@),
            _ => finish(d),
        },
        Stage::Deleting => match outcome {
            Outcome::Done => reply(d, UNLINKED@),
            Outcome::Failed(error) => report(d, error@),
            _ => finish(d),
        },
        Stage::Replying => match outcome {
            Outcome::Failed(error) => report(d, error@),
            _ => finish(d),
        },
        Stage::Reporting => finish(d),
        Stage::Finished => finish(d),
    }
}

impl Dispatch {
    fn finish(self) -> (next: (Dispatch, Action))
        ensures
            (next.0@, next.1@) == finish(self@),
    {
        let mut d = self;
        d.stage = Stage::Finished;
        (d, Action::Nothing)
    }

    fn reply(self, text: String) -> (next: (Dispatch, Action))
        ensures
            (next.0@, next.1@) == reply(self@, text@),
    {
        let mut d = self;
        d.stage = Stage::Replying;
        let room_id = d.room_id.clone();
        (d, Action::Send { room_id, text })
    }

    fn report(self, error: &Error) -> (next: (Dispatch, Action))
        ensures
            (next.0@, next.1@) == report(self@, error@),
    {
        let mut d = self;
        d.stage = Stage::Reporting;
        let room_id = d.room_id.clone();
        (d, Action::Send { room_id, text: error.describe() })
    }

    fn resolve(self, command: Command, found: Option<User>) -> (next: (Dispatch, Action))
        ensures
            (next.0@, next.1@) == resolve(self@, command, found_user(found)),
    {
        let mut d = self;
        match command {
            Command::Subscribe => match found {
                Some(_) => d.reply(String::from_str(ALREADY_SUBSCRIBED)),
                None => {
                    let token = match &d.argument {
                        Some(word) => if word.as_str().unicode_len() > 0 {
                            Some(word.clone())
                        } else {
                            None
                        },
                        None => None,
                    };
                    match token {
                        Some(token) => {
                            d.stage = Stage::Creating;
                            let user_id = d.sender.clone();
                            let room_id = d.room_id.clone();
                            (d, Action::CreateSubscription { user_id, room_id, token })
                        },
                        None => d.reply(String::from_str(TOKEN_MISSING)),
                    }
                },
            },
            Command::Unlink => match found {
                Some(_) => {
                    d.stage = Stage::Deleting;
                    let user_id = d.sender.clone();
                    (d, Action::DeleteSubscription { user_id })
                },
                None => d.reply(String::from_str(NOT_LINKED)),
            },
            _ => match command.query() {
                Some(query) => match found {
                    Some(user) => {
                        d.stage = Stage::Fetching(query);
                        (d, Action::Fetch { query, token: user.token })
                    },
                    None => d.reply(String::from_str(NOT_SUBSCRIBED)),
                },
                None => d.finish(),
            },
        }
    }

    /// Takes the outcome of the action asked for last and gives the next
    /// action. [`Action::Nothing`] says that the handling is over.
    pub fn advance(self, outcome: Outcome) -> (next: (Dispatch, Action))
        ensures
            (next.0@, next.1@) == step(self@, outcome),
    {
        let mut d = self;
        match d.stage {
            Stage::Lookup(command) => match outcome {
                Outcome::Subscription(found) => d.resolve(command, found),
                Outcome::Failed(error) => d.report(&error),
                _ => d.finish(),
            },
            Stage::Fetching(query) => match outcome {
                Outcome::Profile(profile) => match query {
                    Query::UserStatus => d.reply(render_user_status(&profile)),
                    _ => d.finish(),
                },
                Outcome::Workers(workers) => match query {
                    Query::Workers => d.reply(render_workers(&workers)),
                    _ => d.finish(),
                },
                Outcome::DailyRewards(rewards) => match query {
                    Query::DailyRewards => d.reply(render_daily_rewards(&rewards)),
                    _ => d.finish(),
                },
                Outcome::PoolStats(stats) => match query {
                    Query::PoolStatus => d.reply(render_pool_status(&stats)),
                    _ => d.finish(),
                },
                Outcome::Failed(error) => d.report(&error),
                _ => d.finish(),
            },
            Stage::Probing => match outcome {
                Outcome::Tor(through) => if through {
                    d.reply(String::from_str(TOR_CONNECTED))
                } else {
                    d.reply(String::from_str(TOR_NOT_CONNECTED))
                },
                Outcome::Failed(error) => d.report(&error),
                _ => d.finish(),
            },
            Stage::Creating => match outcome {
                Outcome::Done => {
                    d.stage = Stage::Redacting;
                    let room_id = d.room_id.clone();
                    let event_id = d.event_id.clone();
                    (d, Action::Redact { room_id, event_id })
                },
                Outcome::Failed(error) => d.report(&error),
                _ => d.finish(),
            },
            Stage::Redacting => match outcome {
                Outcome::Done => d.reply(String::from_str(SUBSCRIBED)),
                Outcome::Failed(_) => d.reply(String::from_str(SUBSCRIBED)),
                _ => d.finish(),
            },
            Stage::Deleting => match outcome {
                Outcome::Done => d.reply(String::from_str(UNLINKED)),
                Outcome::Failed(error) => d.report(&error),
                _ => d.finish(),
            },
            Stage::Replying => match outcome {
                Outcome::Failed(error) => d.report(&error),
                _ => d.finish(),
            },
            Stage::Reporting => d.finish(),
            Stage::Finished => d.finish(),
        }
    }
}

impl Bot {
    /// Takes a message from a room and gives the handling of it, with the
    /// first action that it asks for.
    ///
    /// A message of the relay's own, one from a room that the relay has not
    /// joined, and one that is not plain text are passed over: the handling
    /// is over at once and asks for nothing.
    pub fn on_room_message(&self, event: RoomMessage) -> (next: (Dispatch, Action))
        ensures
            (next.0@, next.1@) == begin(self.user_id@, event),
    {
        let RoomMessage { sender, room_id, event_id, membership, body } = event;
        let own = same_text(sender.as_str(), self.user_id.as_str());
        let joined = match membership {
            Membership::Joined => true,
            _ => false,
        };
        let d = Dispatch { stage: Stage::Finished, sender, room_id, event_id, argument: None };
        match body {
            Some(body) => {
                if own || !joined {
                    return (d, Action::Nothing);
                }
                let (word, rest) = split_once(body.as_str(), ' ');
                let argument = match rest {
                    Some(rest) => Some(String::from_str(split_once(rest, ' ').0)),
                    None => None,
                };
                let mut d = d;
                d.argument = argument;
                match Command::parse(word) {
                    Command::CheckTor => {
                        d.stage = Stage::Probing;
                        (d, Action::CheckTor)
                    },
                    Command::Help => d.reply(String::from_str(HELP)),
                    Command::Unknown => d.reply(String::from_str(INVALID_COMMAND)),
                    command => {
                        d.stage = Stage::Lookup(command);
                        let user_id = d.sender.clone();
                        (d, Action::FindSubscription { user_id })
                    },
                }
            },
            None => (d, Action::Nothing),
        }
    }
}

} // verus!
