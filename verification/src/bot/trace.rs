//! What holds of every handling of a message, whatever the outside reports.
//!
//! A handling is followed here through the outcomes that are reported to it
//! in turn, and the subscriptions are followed through the actions that a
//! working store performs on the way.

use vstd::prelude::*;
use crate::bot::command::{command_of, query_of, Command, Query};
use crate::bot::dispatch::{
    accepts, begin, step, tor_text, ActionView, DispatchView, Outcome, Stage, ALREADY_SUBSCRIBED,
    HELP, INVALID_COMMAND, NOT_LINKED, NOT_SUBSCRIBED, SUBSCRIBED, TOKEN_MISSING, UNLINKED,
};
use crate::bot::pool::{daily_rewards_text, pool_status_text, user_status_text, workers_text};
use crate::bot::RoomMessage;
use crate::db::{found_user, UserView};
use crate::text::{first_word, second_word};

verus! {

/// The actions that the handling asks for from `d` on, one for each of the
/// outcomes reported to it in turn.
pub open spec fn run(d: DispatchView, outcomes: Seq<Outcome>) -> Seq<ActionView>
    decreases outcomes.len(),
{
    if outcomes.len() == 0 {
        Seq::empty()
    } else {
        let next = step(d, outcomes[0]);
        seq![next.1] + run(next.0, outcomes.drop_first())
    }
}

/// The command that an accepted message holds.
pub open spec fn command_in(event: RoomMessage) -> Command {
    command_of(first_word(event.body->0@))
}

/// Whether the action reaches the pool.
pub open spec fn is_pool_call(action: ActionView) -> bool {
    action is Fetch || action is CheckTor
}

/// Whether the action changes the store.
pub open spec fn is_store_write(action: ActionView) -> bool {
    action is CreateSubscription || action is DeleteSubscription
}

/// Whether the action is a redaction.
pub open spec fn is_redaction(action: ActionView) -> bool {
    action is Redact
}

/// How many of the actions are of the kind `kind`.
pub open spec fn count(actions: Seq<ActionView>, kind: spec_fn(ActionView) -> bool) -> nat
    decreases actions.len(),
{
    if actions.len() == 0 {
        0
    } else if kind(actions[0]) {
        1 + count(actions.drop_first(), kind)
    } else {
        count(actions.drop_first(), kind)
    }
}

/// How many pool calls a handling at this stage may still ask for.
pub open spec fn pool_calls_left(stage: Stage) -> nat {
    match stage {
        Stage::Lookup(command) => if query_of(command) is Some {
            1
        } else {
            0
        },
        _ => 0,
    }
}

/// How many store writes a handling at this stage may still ask for.
pub open spec fn store_writes_left(stage: Stage) -> nat {
    match stage {
        Stage::Lookup(Command::Subscribe) => 1,
        Stage::Lookup(Command::Unlink) => 1,
        _ => 0,
    }
}

/// How many redactions a handling at this stage may still ask for.
pub open spec fn redactions_left(stage: Stage) -> nat {
    match stage {
        Stage::Lookup(Command::Subscribe) => 1,
        Stage::Creating => 1,
        _ => 0,
    }
}

/// A run has one action for each outcome.
pub proof fn lemma_run_len(d: DispatchView, outcomes: Seq<Outcome>)
    ensures
        run(d, outcomes).len() == outcomes.len(),
    decreases outcomes.len(),
{
    if outcomes.len() > 0 {
        lemma_run_len(step(d, outcomes[0]).0, outcomes.drop_first());
    }
}

/// From any stage on, a handling asks for no more pool calls, store writes
/// and redactions than its stage leaves it.
pub proof fn lemma_run_within_bounds(d: DispatchView, outcomes: Seq<Outcome>)
    ensures
        count(run(d, outcomes), |a: ActionView| is_pool_call(a)) <= pool_calls_left(d.stage),
        count(run(d, outcomes), |a: ActionView| is_store_write(a)) <= store_writes_left(
            d.stage,
        ),
        count(run(d, outcomes), |a: ActionView| is_redaction(a)) <= redactions_left(d.stage),
    decreases outcomes.len(),
{
    if outcomes.len() > 0 {
        let next = step(d, outcomes[0]);
        let rest = run(next.0, outcomes.drop_first());
        lemma_run_within_bounds(next.0, outcomes.drop_first());
        assert((seq![next.1] + rest).drop_first() =~= rest);
        assert((seq![next.1] + rest)[0] == next.1);
    }
}

/// The handling of one message asks for at most one pool call, at most one
/// store write and at most one redaction, the first action counted in; and
/// only a subscription is ever followed by a redaction.
pub proof fn lemma_side_effects_are_bounded(
    bot: Seq<char>,
    event: RoomMessage,
    outcomes: Seq<Outcome>,
)
    ensures
        ({
            let start = begin(bot, event);
            let actions = seq![start.1] + run(start.0, outcomes);
            &&& count(actions, |a: ActionView| is_pool_call(a)) <= 1
            &&& count(actions, |a: ActionView| is_store_write(a)) <= 1
            &&& count(actions, |a: ActionView| is_redaction(a)) <= 1
            &&& count(actions, |a: ActionView| is_redaction(a)) > 0 ==> accepts(bot, event)
                && command_in(event) is Subscribe
        }),
{
    let start = begin(bot, event);
    let rest = run(start.0, outcomes);
    let actions = seq![start.1] + rest;
    lemma_run_within_bounds(start.0, outcomes);
    assert(actions.drop_first() =~= rest);
    assert(actions[0] == start.1);
}

/// Once the reply is on its way, the handling asks for nothing but, at
/// most, the sending of a report.
pub proof fn lemma_after_reply(d: DispatchView, outcomes: Seq<Outcome>)
    requires
        d.stage is Replying || d.stage is Reporting || d.stage is Finished,
    ensures
        forall|i: int|
            0 <= i < run(d, outcomes).len() ==> {
                let action = #[trigger] run(d, outcomes)[i];
                action is Send || action is Nothing
            },
    decreases outcomes.len(),
{
    if outcomes.len() > 0 {
        let next = step(d, outcomes[0]);
        lemma_after_reply(next.0, outcomes.drop_first());
    }
}

/// A message that is not accepted (one of the relay's own, one from a room
/// not joined, one that is not plain text) has no effect at all: the
/// handling asks for nothing at first, and for nothing whatever is reported
/// to it.
pub proof fn lemma_passed_over(bot: Seq<char>, event: RoomMessage, outcomes: Seq<Outcome>)
    requires
        !accepts(bot, event),
    ensures
        begin(bot, event).1 == ActionView::Nothing,
        begin(bot, event).0.stage is Finished,
        forall|i: int|
            0 <= i < run(begin(bot, event).0, outcomes).len() ==> #[trigger] run(
                begin(bot, event).0,
                outcomes,
            )[i] == ActionView::Nothing,
{
    lemma_finished_stays(begin(bot, event).0, outcomes);
}

/// A finished handling asks for nothing, whatever is reported to it.
pub proof fn lemma_finished_stays(d: DispatchView, outcomes: Seq<Outcome>)
    requires
        d.stage is Finished,
    ensures
        forall|i: int|
            0 <= i < run(d, outcomes).len() ==> #[trigger] run(d, outcomes)[i]
                == ActionView::Nothing,
    decreases outcomes.len(),
{
    if outcomes.len() > 0 {
        let next = step(d, outcomes[0]);
        lemma_finished_stays(next.0, outcomes.drop_first());
    }
}

/// A message of the relay's own has no effect at all.
pub proof fn lemma_own_message_has_no_effect(
    bot: Seq<char>,
    event: RoomMessage,
    outcomes: Seq<Outcome>,
)
    requires
        event.sender@ == bot,
    ensures
        begin(bot, event).1 == ActionView::Nothing,
        forall|i: int|
            0 <= i < run(begin(bot, event).0, outcomes).len() ==> #[trigger] run(
                begin(bot, event).0,
                outcomes,
            )[i] == ActionView::Nothing,
{
    lemma_passed_over(bot, event, outcomes);
}

/// An accepted message whose first word is no command is answered with
/// "Invalid command", and with nothing else.
pub proof fn lemma_unknown_command(bot: Seq<char>, event: RoomMessage, outcomes: Seq<Outcome>)
    requires
        accepts(bot, event),
        command_in(event) is Unknown,
    ensures
        begin(bot, event).1 == (ActionView::Send {
            room_id: event.room_id@,
            text: INVALID_COMMAND@,
        }),
        forall|i: int|
            0 <= i < run(begin(bot, event).0, outcomes).len() ==> {
                let action = #[trigger] run(begin(bot, event).0, outcomes)[i];
                action is Send || action is Nothing
            },
{
    lemma_after_reply(begin(bot, event).0, outcomes);
}

/// A query from a user without a subscription is answered with the
/// not-subscribed text, and the pool is never called: the handling looks the
/// sender up, and once it learns that there is no record, it sends that
/// reply and asks for nothing but sending from then on.
pub proof fn lemma_query_without_subscription(
    bot: Seq<char>,
    event: RoomMessage,
    later: Seq<Outcome>,
)
    requires
        accepts(bot, event),
        query_of(command_in(event)) is Some,
    ensures
        ({
            let start = begin(bot, event);
            let actions = run(start.0, seq![Outcome::Subscription(None)] + later);
            &&& start.1 == ActionView::FindSubscription { user_id: event.sender@ }
            &&& actions.len() == 1 + later.len()
            &&& actions[0] == ActionView::Send { room_id: event.room_id@, text: NOT_SUBSCRIBED@ }
            &&& forall|i: int| 0 <= i < actions.len() ==> !is_pool_call(#[trigger] actions[i])
        }),
{
    let start = begin(bot, event);
    let outcomes = seq![Outcome::Subscription(None)] + later;
    let next = step(start.0, outcomes[0]);
    assert(outcomes.drop_first() =~= later);
    lemma_after_reply(next.0, later);
    lemma_run_len(next.0, later);
    let actions = run(start.0, outcomes);
    assert(actions == seq![next.1] + run(next.0, later));
    assert forall|i: int| 0 <= i < actions.len() implies !is_pool_call(#[trigger] actions[i]) by {
        if i > 0 {
            assert(actions[i] == run(next.0, later)[i - 1]);
        }
    }
}

/// A subscription from a user who has one already, made in whatever room,
/// is answered with the already-subscribed text, and the store is never
/// written.
pub proof fn lemma_subscribe_twice(
    bot: Seq<char>,
    event: RoomMessage,
    existing: crate::db::User,
    later: Seq<Outcome>,
)
    requires
        accepts(bot, event),
        command_in(event) is Subscribe,
    ensures
        ({
            let start = begin(bot, event);
            let actions = run(start.0, seq![Outcome::Subscription(Some(existing))] + later);
            &&& start.1 == ActionView::FindSubscription { user_id: event.sender@ }
            &&& actions.len() == 1 + later.len()
            &&& actions[0] == ActionView::Send {
                room_id: event.room_id@,
                text: ALREADY_SUBSCRIBED@,
            }
            &&& forall|i: int| 0 <= i < actions.len() ==> !is_store_write(#[trigger] actions[i])
        }),
{
    let start = begin(bot, event);
    let outcomes = seq![Outcome::Subscription(Some(existing))] + later;
    let next = step(start.0, outcomes[0]);
    assert(outcomes.drop_first() =~= later);
    lemma_after_reply(next.0, later);
    lemma_run_len(next.0, later);
    let actions = run(start.0, outcomes);
    assert(actions == seq![next.1] + run(next.0, later));
    assert forall|i: int| 0 <= i < actions.len() implies !is_store_write(
        #[trigger] actions[i],
    ) by {
        if i > 0 {
            assert(actions[i] == run(next.0, later)[i - 1]);
        }
    }
}

/// The subscriptions that the store holds at a moment, each under its
/// user's identifier.
pub type Subscriptions = Map<Seq<char>, UserView>;

/// The record under `user_id`, if there is one.
pub open spec fn lookup(store: Subscriptions, user_id: Seq<char>) -> Option<UserView> {
    if store.contains_key(user_id) {
        Some(store[user_id])
    } else {
        None
    }
}

/// The store after a working engine has performed the action.
pub open spec fn performed(store: Subscriptions, action: ActionView) -> Subscriptions {
    match action {
        ActionView::CreateSubscription { user_id, room_id, token } => store.insert(
            user_id,
            UserView { room_id, token },
        ),
        ActionView::DeleteSubscription { user_id } => store.remove(user_id),
        _ => store,
    }
}

/// Whether the outcome is what a working engine reports of the action on
/// this store: the record or its absence for a lookup, success for a write.
/// Of actions that do not concern the store it admits every outcome.
pub open spec fn answers(store: Subscriptions, action: ActionView, outcome: Outcome) -> bool {
    match action {
        ActionView::FindSubscription { user_id } => outcome is Subscription && found_user(
            outcome->Subscription_0,
        ) == lookup(store, user_id),
        ActionView::CreateSubscription { .. } => outcome is Done,
        ActionView::DeleteSubscription { .. } => outcome is Done,
        _ => true,
    }
}

/// Whether the outcomes, reported in turn to a handling that has just asked
/// for `asked`, are those of a working engine that starts from `store`.
pub open spec fn served(
    store: Subscriptions,
    d: DispatchView,
    asked: ActionView,
    outcomes: Seq<Outcome>,
) -> bool
    decreases outcomes.len(),
{
    outcomes.len() == 0 || {
        let next = step(d, outcomes[0]);
        &&& answers(store, asked, outcomes[0])
        &&& served(performed(store, asked), next.0, next.1, outcomes.drop_first())
    }
}

/// The store after the engine has performed every action of which an outcome
/// was reported.
pub open spec fn store_after(
    store: Subscriptions,
    d: DispatchView,
    asked: ActionView,
    outcomes: Seq<Outcome>,
) -> Subscriptions
    decreases outcomes.len(),
{
    if outcomes.len() == 0 {
        store
    } else {
        let next = step(d, outcomes[0]);
        store_after(performed(store, asked), next.0, next.1, outcomes.drop_first())
    }
}

/// The action that the handling asks for after all the outcomes.
pub open spec fn asked_last(d: DispatchView, asked: ActionView, outcomes: Seq<Outcome>)
    -> ActionView
    decreases outcomes.len(),
{
    if outcomes.len() == 0 {
        asked
    } else {
        let next = step(d, outcomes[0]);
        asked_last(next.0, next.1, outcomes.drop_first())
    }
}

/// Whether the outcomes carry the handling of `event` to its end against a
/// working engine that starts from `store`.
pub open spec fn handled(
    bot: Seq<char>,
    event: RoomMessage,
    store: Subscriptions,
    outcomes: Seq<Outcome>,
) -> bool {
    let start = begin(bot, event);
    served(store, start.0, start.1, outcomes) && asked_last(start.0, start.1, outcomes)
        == ActionView::Nothing
}

/// The store after the handling of `event`.
pub open spec fn store_after_event(
    bot: Seq<char>,
    event: RoomMessage,
    store: Subscriptions,
    outcomes: Seq<Outcome>,
) -> Subscriptions {
    let start = begin(bot, event);
    store_after(store, start.0, start.1, outcomes)
}

/// A handling that has no store write left and has not just asked for one
/// leaves the store as it is.
pub proof fn lemma_store_untouched(
    store: Subscriptions,
    d: DispatchView,
    asked: ActionView,
    outcomes: Seq<Outcome>,
)
    requires
        store_writes_left(d.stage) == 0,
        !is_store_write(asked),
    ensures
        store_after(store, d, asked, outcomes) == store,
    decreases outcomes.len(),
{
    if outcomes.len() > 0 {
        let next = step(d, outcomes[0]);
        lemma_store_untouched(store, next.0, next.1, outcomes.drop_first());
    }
}

/// A subscription with a token, from a user who has none, leaves the record
/// of it in the store: the sender's identifier, the room of the message, the
/// token.
pub proof fn lemma_subscribe_links(
    bot: Seq<char>,
    event: RoomMessage,
    store: Subscriptions,
    outcomes: Seq<Outcome>,
)
    requires
        accepts(bot, event),
        command_in(event) is Subscribe,
        !store.contains_key(event.sender@),
        second_word(event.body->0@) is Some,
        second_word(event.body->0@)->0.len() > 0,
        handled(bot, event, store, outcomes),
    ensures
        store_after_event(bot, event, store, outcomes) == store.insert(
            event.sender@,
            UserView { room_id: event.room_id@, token: second_word(event.body->0@)->0 },
        ),
{
    reveal_with_fuel(served, 3);
    reveal_with_fuel(asked_last, 3);
    reveal_with_fuel(store_after, 3);
    let start = begin(bot, event);
    assert(outcomes.len() > 0);
    let found = step(start.0, outcomes[0]);
    let rest = outcomes.drop_first();
    assert(found.1 is CreateSubscription);
    assert(rest.len() > 0);
    let created = step(found.0, rest[0]);
    let store1 = performed(store, found.1);
    assert(created.1 is Redact);
    let tail = rest.drop_first();
    assert(store_after(store, start.0, start.1, outcomes) == store_after(
        store1,
        created.0,
        created.1,
        tail,
    ));
    if tail.len() > 0 {
        let redacted = step(created.0, tail[0]);
        lemma_store_untouched(store1, redacted.0, redacted.1, tail.drop_first());
    }
}

/// An unlinking leaves no record of the sender in the store, whether or not
/// there was one.
pub proof fn lemma_unlink_unlinks(
    bot: Seq<char>,
    event: RoomMessage,
    store: Subscriptions,
    outcomes: Seq<Outcome>,
)
    requires
        accepts(bot, event),
        command_in(event) is Unlink,
        handled(bot, event, store, outcomes),
    ensures
        store_after_event(bot, event, store, outcomes) == store.remove(event.sender@),
        !store_after_event(bot, event, store, outcomes).contains_key(event.sender@),
{
    reveal_with_fuel(served, 3);
    reveal_with_fuel(asked_last, 3);
    reveal_with_fuel(store_after, 3);
    let start = begin(bot, event);
    assert(outcomes.len() > 0);
    let found = step(start.0, outcomes[0]);
    let rest = outcomes.drop_first();
    if store.contains_key(event.sender@) {
        assert(found.1 is DeleteSubscription);
        assert(rest.len() > 0);
        let deleted = step(found.0, rest[0]);
        let store1 = performed(store, found.1);
        lemma_store_untouched(store1, deleted.0, deleted.1, rest.drop_first());
    } else {
        lemma_store_untouched(store, found.0, found.1, rest);
        assert(store.remove(event.sender@) =~= store);
    }
}

/// A user who subscribes and then unlinks is left without a record, and a
/// query that follows is answered with the not-subscribed text: the handling
/// looks the sender up, and the store's answer leads to that reply.
pub proof fn lemma_subscribe_then_unlink(
    bot: Seq<char>,
    store: Subscriptions,
    subscribe: RoomMessage,
    subscribing: Seq<Outcome>,
    unlink: RoomMessage,
    unlinking: Seq<Outcome>,
    query: RoomMessage,
    found: Outcome,
)
    requires
        accepts(bot, subscribe),
        command_in(subscribe) is Subscribe,
        handled(bot, subscribe, store, subscribing),
        accepts(bot, unlink),
        command_in(unlink) is Unlink,
        unlink.sender@ == subscribe.sender@,
        handled(
            bot,
            unlink,
            store_after_event(bot, subscribe, store, subscribing),
            unlinking,
        ),
        accepts(bot, query),
        query_of(command_in(query)) is Some,
        query.sender@ == subscribe.sender@,
        answers(
            store_after_event(
                bot,
                unlink,
                store_after_event(bot, subscribe, store, subscribing),
                unlinking,
            ),
            begin(bot, query).1,
            found,
        ),
    ensures
        ({
            let linked = store_after_event(bot, subscribe, store, subscribing);
            let unlinked = store_after_event(bot, unlink, linked, unlinking);
            &&& !unlinked.contains_key(subscribe.sender@)
            &&& begin(bot, query).1 == ActionView::FindSubscription { user_id: query.sender@ }
            &&& step(begin(bot, query).0, found).1 == ActionView::Send {
                room_id: query.room_id@,
                text: NOT_SUBSCRIBED@,
            }
        }),
{
    let linked = store_after_event(bot, subscribe, store, subscribing);
    lemma_unlink_unlinks(bot, unlink, linked, unlinking);
}

/// For a user without a record in the store, a query is answered with the
/// not-subscribed text and the pool is never called, whatever else is
/// reported to the handling; and the store is left as it was.
pub proof fn lemma_query_of_unsubscribed_user(
    bot: Seq<char>,
    event: RoomMessage,
    store: Subscriptions,
    outcomes: Seq<Outcome>,
)
    requires
        accepts(bot, event),
        query_of(command_in(event)) is Some,
        !store.contains_key(event.sender@),
        outcomes.len() > 0,
        served(store, begin(bot, event).0, begin(bot, event).1, outcomes),
    ensures
        ({
            let start = begin(bot, event);
            let actions = run(start.0, outcomes);
            &&& start.1 == ActionView::FindSubscription { user_id: event.sender@ }
            &&& actions.len() == outcomes.len()
            &&& actions[0] == ActionView::Send { room_id: event.room_id@, text: NOT_SUBSCRIBED@ }
            &&& forall|i: int| 0 <= i < actions.len() ==> !is_pool_call(#[trigger] actions[i])
            &&& store_after_event(bot, event, store, outcomes) == store
        }),
{
    let start = begin(bot, event);
    let later = outcomes.drop_first();
    assert(outcomes[0] == Outcome::Subscription(None));
    assert(outcomes =~= seq![Outcome::Subscription(None)] + later);
    lemma_query_without_subscription(bot, event, later);
    let next = step(start.0, outcomes[0]);
    lemma_store_untouched(store, next.0, next.1, later);
}

/// For a user with a record in the store, a subscription is answered with
/// the already-subscribed text, from whatever room it comes and in whatever
/// room the record was made; the store is never written and is left as it
/// was.
pub proof fn lemma_subscription_of_subscribed_user(
    bot: Seq<char>,
    event: RoomMessage,
    store: Subscriptions,
    outcomes: Seq<Outcome>,
)
    requires
        accepts(bot, event),
        command_in(event) is Subscribe,
        store.contains_key(event.sender@),
        outcomes.len() > 0,
        served(store, begin(bot, event).0, begin(bot, event).1, outcomes),
    ensures
        ({
            let start = begin(bot, event);
            let actions = run(start.0, outcomes);
            &&& start.1 == ActionView::FindSubscription { user_id: event.sender@ }
            &&& actions.len() == outcomes.len()
            &&& actions[0] == ActionView::Send {
                room_id: event.room_id@,
                text: ALREADY_SUBSCRIBED@,
            }
            &&& forall|i: int| 0 <= i < actions.len() ==> !is_store_write(#[trigger] actions[i])
            &&& store_after_event(bot, event, store, outcomes) == store
        }),
{
    let start = begin(bot, event);
    let later = outcomes.drop_first();
    let existing = outcomes[0]->Subscription_0->0;
    assert(outcomes[0] == Outcome::Subscription(Some(existing)));
    assert(outcomes =~= seq![Outcome::Subscription(Some(existing))] + later);
    lemma_subscribe_twice(bot, event, existing, later);
    let next = step(start.0, outcomes[0]);
    lemma_store_untouched(store, next.0, next.1, later);
}

/// Whether the action is a message to the room.
pub open spec fn is_send(action: ActionView) -> bool {
    action is Send
}

/// Whether the outcome reports the success of the action.
pub open spec fn succeeds(asked: ActionView, outcome: Outcome) -> bool {
    match asked {
        ActionView::Nothing => false,
        ActionView::FindSubscription { .. } => outcome is Subscription,
        ActionView::Fetch { query, .. } => match query {
            Query::UserStatus => outcome is Profile,
            Query::Workers => outcome is Workers,
            Query::DailyRewards => outcome is DailyRewards,
            Query::PoolStatus => outcome is PoolStats,
        },
        ActionView::CheckTor => outcome is Tor,
        _ => outcome is Done,
    }
}

/// Whether every outcome, reported in turn to a handling that has just asked
/// for `asked`, reports the success of the action asked for before it.
pub open spec fn smooth(d: DispatchView, asked: ActionView, outcomes: Seq<Outcome>) -> bool
    decreases outcomes.len(),
{
    outcomes.len() == 0 || {
        let next = step(d, outcomes[0]);
        succeeds(asked, outcomes[0]) && smooth(next.0, next.1, outcomes.drop_first())
    }
}

/// Whether `asked` is the action that a handling at the stage of `d` waits
/// for.
pub open spec fn awaits(d: DispatchView, asked: ActionView) -> bool {
    match d.stage {
        Stage::Lookup(command) => asked is FindSubscription && (query_of(command) is Some
            || command is Subscribe || command is Unlink),
        Stage::Fetching(query) => asked is Fetch && asked->query == query,
        Stage::Probing => asked is CheckTor,
        Stage::Creating => asked is CreateSubscription,
        Stage::Redacting => asked is Redact,
        Stage::Deleting => asked is DeleteSubscription,
        Stage::Replying => asked is Send,
        Stage::Reporting => asked is Send,
        Stage::Finished => asked is Nothing,
    }
}

/// A handling always waits for the action that it asked for last: this
/// holds after the first step and after every step that follows it.
pub proof fn lemma_handling_awaits(
    bot: Seq<char>,
    event: RoomMessage,
    d: DispatchView,
    asked: ActionView,
    outcome: Outcome,
)
    ensures
        awaits(begin(bot, event).0, begin(bot, event).1),
        awaits(d, asked) ==> awaits(step(d, outcome).0, step(d, outcome).1),
{
}

/// How many messages a handling at this stage has yet to ask for when all
/// goes well.
pub open spec fn sends_due(stage: Stage) -> nat {
    match stage {
        Stage::Replying => 0,
        Stage::Reporting => 0,
        Stage::Finished => 0,
        _ => 1,
    }
}

/// Carried to its end without a failure, a handling asks for as many
/// messages as its stage has due.
pub proof fn lemma_sends_when_smooth(d: DispatchView, asked: ActionView, outcomes: Seq<Outcome>)
    requires
        awaits(d, asked),
        smooth(d, asked, outcomes),
        asked_last(d, asked, outcomes) == ActionView::Nothing,
    ensures
        count(run(d, outcomes), |a: ActionView| is_send(a)) == sends_due(d.stage),
    decreases outcomes.len(),
{
    if outcomes.len() > 0 {
        let next = step(d, outcomes[0]);
        let rest = run(next.0, outcomes.drop_first());
        lemma_sends_when_smooth(next.0, next.1, outcomes.drop_first());
        assert((seq![next.1] + rest).drop_first() =~= rest);
        assert((seq![next.1] + rest)[0] == next.1);
    }
}

/// Every accepted message gets exactly one reply: carried to its end
/// without a failure, its handling asks for one message to the room, the
/// first action counted in.
pub proof fn lemma_one_reply(bot: Seq<char>, event: RoomMessage, outcomes: Seq<Outcome>)
    requires
        accepts(bot, event),
        smooth(begin(bot, event).0, begin(bot, event).1, outcomes),
        asked_last(begin(bot, event).0, begin(bot, event).1, outcomes) == ActionView::Nothing,
    ensures
        count(
            seq![begin(bot, event).1] + run(begin(bot, event).0, outcomes),
            |a: ActionView| is_send(a),
        ) == 1,
{
    let start = begin(bot, event);
    let rest = run(start.0, outcomes);
    lemma_sends_when_smooth(start.0, start.1, outcomes);
    assert((seq![start.1] + rest).drop_first() =~= rest);
    assert((seq![start.1] + rest)[0] == start.1);
}

/// The reply that a message gets when all goes well: what the command, the
/// store and the pool's answer call for. `outcomes` are the outcomes
/// reported to the handling in turn; the pool's answer is among them.
pub open spec fn reply_due(event: RoomMessage, store: Subscriptions, outcomes: Seq<Outcome>)
    -> Seq<char> {
    let subscribed = store.contains_key(event.sender@);
    match command_in(event) {
        Command::UserStatus => if subscribed {
            user_status_text(outcomes[1]->Profile_0)
        } else {
            NOT_SUBSCRIBED@
        },
        Command::Workers => if subscribed {
            workers_text(outcomes[1]->Workers_0@)
        } else {
            NOT_SUBSCRIBED@
        },
        Command::DailyRewards => if subscribed {
            daily_rewards_text(outcomes[1]->DailyRewards_0@)
        } else {
            NOT_SUBSCRIBED@
        },
        Command::PoolStatus => if subscribed {
            pool_status_text(outcomes[1]->PoolStats_0)
        } else {
            NOT_SUBSCRIBED@
        },
        Command::Subscribe => if subscribed {
            ALREADY_SUBSCRIBED@
        } else {
            match second_word(event.body->0@) {
                Some(token) => if token.len() > 0 {
                    SUBSCRIBED@
                } else {
                    TOKEN_MISSING@
                },
                None => TOKEN_MISSING@,
            }
        },
        Command::Unlink => if subscribed {
            UNLINKED@
        } else {
            NOT_LINKED@
        },
        Command::CheckTor => tor_text(outcomes[0]->Tor_0),
        Command::Help => HELP@,
        Command::Unknown => INVALID_COMMAND@,
    }
}

/// The token that a query is made with: that of the sender's record.
pub open spec fn token_due(event: RoomMessage, store: Subscriptions) -> Seq<char> {
    store[event.sender@].token
}

/// Carried to its end against a working store and without a failure, the
/// handling of an accepted message sends the reply that is due, to the room
/// of the message, and sends nothing else; and a query reaches the pool with
/// the token of the sender's record and no other.
pub proof fn lemma_reply_is_due(
    bot: Seq<char>,
    event: RoomMessage,
    store: Subscriptions,
    outcomes: Seq<Outcome>,
)
    requires
        accepts(bot, event),
        handled(bot, event, store, outcomes),
        smooth(begin(bot, event).0, begin(bot, event).1, outcomes),
    ensures
        ({
            let start = begin(bot, event);
            let actions = seq![start.1] + run(start.0, outcomes);
            &&& forall|i: int|
                0 <= i < actions.len() && (#[trigger] actions[i]) is Send ==> actions[i]
                    == ActionView::Send {
                    room_id: event.room_id@,
                    text: reply_due(event, store, outcomes),
                }
            &&& forall|i: int|
                0 <= i < actions.len() && (#[trigger] actions[i]) is Fetch ==> query_of(
                    command_in(event),
                ) == Some(actions[i]->query) && actions[i]->Fetch_token == token_due(
                    event,
                    store,
                )
        }),
{
    reveal_with_fuel(served, 6);
    reveal_with_fuel(smooth, 6);
    reveal_with_fuel(asked_last, 6);
    reveal_with_fuel(run, 6);
    let start = begin(bot, event);
    let rest = run(start.0, outcomes);
    let actions = seq![start.1] + rest;
    lemma_run_len(start.0, outcomes);
    assert(outcomes.len() >= 1);
    let o1 = outcomes.drop_first();
    let s1 = step(start.0, outcomes[0]);
    assert(rest =~= seq![s1.1] + run(s1.0, o1));
    if o1.len() > 0 {
        let o2 = o1.drop_first();
        let s2 = step(s1.0, o1[0]);
        assert(o1[0] == outcomes[1]);
        assert(run(s1.0, o1) =~= seq![s2.1] + run(s2.0, o2));
        if o2.len() > 0 {
            let o3 = o2.drop_first();
            let s3 = step(s2.0, o2[0]);
            assert(run(s2.0, o2) =~= seq![s3.1] + run(s3.0, o3));
            if o3.len() > 0 {
                let o4 = o3.drop_first();
                let s4 = step(s3.0, o3[0]);
                assert(run(s3.0, o3) =~= seq![s4.1] + run(s4.0, o4));
                if o4.len() > 0 {
                    let o5 = o4.drop_first();
                    let s5 = step(s4.0, o4[0]);
                    assert(run(s4.0, o4) =~= seq![s5.1] + run(s5.0, o5));
                    assert(o5.len() == 0);
                }
            }
        }
    }
}

/// The store that the handling of a message leaves behind: with the
/// sender's record added by a subscription that names a token and finds no
/// record, without it after an unlinking, and as it was after any other
/// message.
pub open spec fn store_due(bot: Seq<char>, event: RoomMessage, store: Subscriptions)
    -> Subscriptions {
    if !accepts(bot, event) {
        store
    } else {
        match command_in(event) {
            Command::Subscribe => match second_word(event.body->0@) {
                Some(token) => if token.len() > 0 && !store.contains_key(event.sender@) {
                    store.insert(event.sender@, UserView { room_id: event.room_id@, token })
                } else {
                    store
                },
                None => store,
            },
            Command::Unlink => store.remove(event.sender@),
            _ => store,
        }
    }
}

/// Carried to its end against a working store, the handling of a message
/// leaves behind the store that is due, whatever the pool and the room
/// report.
pub proof fn lemma_store_is_due(
    bot: Seq<char>,
    event: RoomMessage,
    store: Subscriptions,
    outcomes: Seq<Outcome>,
)
    requires
        handled(bot, event, store, outcomes),
    ensures
        store_after_event(bot, event, store, outcomes) == store_due(bot, event, store),
{
    let start = begin(bot, event);
    if !accepts(bot, event) {
        lemma_store_untouched(store, start.0, start.1, outcomes);
    } else {
        match command_in(event) {
            Command::Subscribe => {
                let token = second_word(event.body->0@);
                if token is Some && token->0.len() > 0 && !store.contains_key(event.sender@) {
                    lemma_subscribe_links(bot, event, store, outcomes);
                } else {
                    reveal_with_fuel(served, 2);
                    reveal_with_fuel(store_after, 2);
                    if outcomes.len() > 0 {
                        let next = step(start.0, outcomes[0]);
                        lemma_store_untouched(store, next.0, next.1, outcomes.drop_first());
                    }
                }
            },
            Command::Unlink => {
                lemma_unlink_unlinks(bot, event, store, outcomes);
            },
            _ => {
                lemma_store_untouched(store, start.0, start.1, outcomes);
            },
        }
    }
}

} // verus!
