//! The commands that a room message can hold.

use vstd::prelude::*;
use crate::text::same_text;

verus! {

/// A query about the account that a user has linked.
#[derive(Clone, Copy, Debug)]
pub enum Query {
    UserStatus,
    Workers,
    DailyRewards,
    PoolStatus,
}

/// What a message asks for.
#[derive(Clone, Copy, Debug)]
pub enum Command {
    UserStatus,
    Workers,
    DailyRewards,
    PoolStatus,
    Subscribe,
    Unlink,
    CheckTor,
    Help,
    /// Any first word that is none of the commands.
    Unknown,
}

/// The command that a first word names. Names are matched whole and by
/// case.
pub open spec fn command_of(word: Seq<char>) -> Command {
    if word == "!userstatus"@ {
        Command::UserStatus
    } else if word == "!workers"@ {
        Command::Workers
    } else if word == "!dailyrewards"@ {
        Command::DailyRewards
    } else if word == "!poolstatus"@ {
        Command::PoolStatus
    } else if word == "!subscribe"@ {
        Command::Subscribe
    } else if word == "!unlink"@ {
        Command::Unlink
    } else if word == "!checktor"@ {
        Command::CheckTor
    } else if word == "!help"@ {
        Command::Help
    } else {
        Command::Unknown
    }
}

/// The query that a command makes, if it is one.
pub open spec fn query_of(command: Command) -> Option<Query> {
    match command {
        Command::UserStatus => Some(Query::UserStatus),
        Command::Workers => Some(Query::Workers),
        Command::DailyRewards => Some(Query::DailyRewards),
        Command::PoolStatus => Some(Query::PoolStatus),
        _ => None,
    }
}

/// Every command starts with an exclamation mark: a first word that does
/// not is no command.
pub proof fn lemma_commands_start_with_mark(word: Seq<char>)
    requires
        !(command_of(word) is Unknown),
    ensures
        word.len() > 0,
        word[0] == '!',
{
    reveal_strlit("!userstatus");
    reveal_strlit("!workers");
    reveal_strlit("!dailyrewards");
    reveal_strlit("!poolstatus");
    reveal_strlit("!subscribe");
    reveal_strlit("!unlink");
    reveal_strlit("!checktor");
    reveal_strlit("!help");
}

impl Command {
    /// Reads the command that a first word names.
    pub fn parse(word: &str) -> (command: Command)
        ensures
            command == command_of(word@),
    {
        if same_text(word, "!userstatus") {
            Command::UserStatus
        } else if same_text(word, "!workers") {
            Command::Workers
        } else if same_text(word, "!dailyrewards") {
            Command::DailyRewards
        } else if same_text(word, "!poolstatus") {
            Command::PoolStatus
        } else if same_text(word, "!subscribe") {
            Command::Subscribe
        } else if same_text(word, "!unlink") {
            Command::Unlink
        } else if same_text(word, "!checktor") {
            Command::CheckTor
        } else if same_text(word, "!help") {
            Command::Help
        } else {
            Command::Unknown
        }
    }

    /// The query that this command makes, if it is one.
    pub fn query(self) -> (query: Option<Query>)
        ensures
            query == query_of(self),
    {
        match self {
            Command::UserStatus => Some(Query::UserStatus),
            Command::Workers => Some(Query::Workers),
            Command::DailyRewards => Some(Query::DailyRewards),
            Command::PoolStatus => Some(Query::PoolStatus),
            _ => None,
        }
    }
}

} // verus!
