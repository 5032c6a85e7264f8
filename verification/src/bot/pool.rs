//! What the pool reports about an account, and the reply text made of it.
//!
//! Amounts arrive here as whole numbers: rewards in satoshi, hash rates in
//! terahashes per second. Numbers that the pool gives as fractions and that
//! are shown as they come (luck, round probability) arrive as their text.

use vstd::prelude::*;
use crate::text::{split_once, tail};
use crate::util::{date_text, decimal, format_date, grouped, push_decimal, push_grouped};

verus! {

/// The state of an account.
#[derive(Clone, Copy, Debug)]
pub struct UserProfile {
    /// Confirmed reward, in satoshi.
    pub confirmed_reward: u64,
    /// Unconfirmed reward, in satoshi.
    pub unconfirmed_reward: u64,
    /// Estimated reward of the current block, in satoshi.
    pub estimated_reward: u64,
    /// Hash rate over the last 5 minutes, in Th/s.
    pub hash_rate_5m: u64,
    /// Hash rate over the last hour, in Th/s.
    pub hash_rate_60m: u64,
    /// Hash rate over the last day, in Th/s.
    pub hash_rate_24h: u64,
    /// Scoring hash rate, in Th/s.
    pub hash_rate_scoring: u64,
    /// Hash rate of the day before, in Th/s.
    pub hash_rate_yesterday: u64,
    pub ok_workers: u32,
    pub low_workers: u32,
    pub off_workers: u32,
    pub dis_workers: u32,
}

/// One worker of an account.
#[derive(Clone, Debug)]
pub struct Worker {
    /// The qualified name: the account, a dot, the worker's own name.
    pub name: String,
    pub state: String,
    /// When the worker last sent a share, in Unix seconds.
    pub last_share: u64,
    /// Scoring hash rate, in Th/s.
    pub hash_rate_scoring: u64,
    /// Hash rate over the last 5 minutes, in Th/s.
    pub hash_rate_5m: u64,
    /// Hash rate over the last hour, in Th/s.
    pub hash_rate_60m: u64,
    /// Hash rate over the last day, in Th/s.
    pub hash_rate_24h: u64,
}

/// The reward of one day.
#[derive(Clone, Copy, Debug)]
pub struct DailyReward {
    /// The day, in Unix seconds.
    pub date: u64,
    /// The day's total reward, in satoshi.
    pub total_reward: u64,
}

/// The state of the whole pool.
#[derive(Clone, Debug)]
pub struct PoolStats {
    /// Luck over the last 10 blocks, as the pool writes it.
    pub luck_b10: String,
    /// Luck over the last 50 blocks, as the pool writes it.
    pub luck_b50: String,
    /// Luck over the last 250 blocks, as the pool writes it.
    pub luck_b250: String,
    /// Scoring hash rate of the pool, in Th/s.
    pub pool_scoring_hash_rate: u64,
    pub pool_active_workers: u32,
    /// Probability of the current round, as the pool writes it.
    pub round_probability: String,
}

/// An amount of satoshi as shown in a reply.
pub open spec fn sats_text(amount: u64) -> Seq<char> {
    grouped(amount as nat) + " SAT"@
}

/// A hash rate as shown in a reply.
pub open spec fn th_text(amount: u64) -> Seq<char> {
    grouped(amount as nat) + " Th/s"@
}

/// The reply to a status query.
pub open spec fn user_status_text(p: UserProfile) -> Seq<char> {
    "User Status\n\n"@ + "Reward: "@ + sats_text(p.confirmed_reward) + "\n"@
        + "Unconfirmed reward: "@ + sats_text(p.unconfirmed_reward) + "\n"@
        + "Estimate reward (block): "@ + sats_text(p.estimated_reward) + "\n\n"@
        + "Hashrate 5m: "@ + th_text(p.hash_rate_5m) + "\n"@ + "Hashrate 60m: "@ + th_text(
        p.hash_rate_60m,
    ) + "\n"@ + "Hashrate 24h: "@ + th_text(p.hash_rate_24h) + "\n"@ + "Hashrate scoring: "@
        + th_text(p.hash_rate_scoring) + "\n"@ + "Hashrate yesterday: "@ + th_text(
        p.hash_rate_yesterday,
    ) + "\n\n"@ + "Ok workers: "@ + decimal(p.ok_workers as nat) + "\n"@ + "Low workers: "@
        + decimal(p.low_workers as nat) + "\n"@ + "Off workers: "@ + decimal(
        p.off_workers as nat,
    ) + "\n"@ + "Disabled workers: "@ + decimal(p.dis_workers as nat)
}

/// The line that names a worker: what follows the first dot of its qualified
/// name. A name without a dot gets no line.
pub open spec fn worker_title(name: Seq<char>) -> Seq<char> {
    match tail(name, '.') {
        Some(own) => "Worker: "@ + own + "\n"@,
        None => Seq::empty(),
    }
}

/// The paragraph of one worker, given the text of its last share's date.
pub open spec fn worker_block(w: Worker, last_share: Seq<char>) -> Seq<char> {
    worker_title(w.name@) + "Status: "@ + w.state@ + "\n"@ + "Last share: "@ + last_share + "\n"@
        + "Hashrate scoring: "@ + th_text(w.hash_rate_scoring) + "\n"@ + "Hashrate 5m: "@
        + th_text(w.hash_rate_5m) + "\n"@ + "Hashrate 60m: "@ + th_text(w.hash_rate_60m) + "\n"@
        + "Hashrate 24h: "@ + th_text(w.hash_rate_24h) + "\n\n"@
}

/// The paragraph of one worker.
pub open spec fn worker_text(w: Worker) -> Seq<char> {
    worker_block(w, date_text(w.last_share as int, "%Y-%m-%d %H:%M:%S"@))
}

/// The reply to a workers query: a paragraph for each worker, in the order
/// given.
pub open spec fn workers_text(workers: Seq<Worker>) -> Seq<char>
    decreases workers.len(),
{
    if workers.len() == 0 {
        "Workers\n\n"@
    } else {
        workers_text(workers.drop_last()) + worker_text(workers.last())
    }
}

/// The line of one day, given the text of its date.
pub open spec fn reward_line(r: DailyReward, date: Seq<char>) -> Seq<char> {
    date + ": "@ + sats_text(r.total_reward) + "\n"@
}

/// The line of one day.
pub open spec fn reward_text(r: DailyReward) -> Seq<char> {
    reward_line(r, date_text(r.date as int, "%Y-%m-%d"@))
}

/// The reply to a rewards query: a line for each day, in the order given.
pub open spec fn daily_rewards_text(rewards: Seq<DailyReward>) -> Seq<char>
    decreases rewards.len(),
{
    if rewards.len() == 0 {
        "Daily Rewards\n\n"@
    } else {
        daily_rewards_text(rewards.drop_last()) + reward_text(rewards.last())
    }
}

/// The reply to a pool query.
pub open spec fn pool_status_text(s: PoolStats) -> Seq<char> {
    "Pool Status\n\n"@ + "Luck 10 blocks: "@ + s.luck_b10@ + "\n"@ + "Luck 50 blocks: "@
        + s.luck_b50@ + "\n"@ + "Luck 250 blocks: "@ + s.luck_b250@ + "\n"@
        + "Hashrate scoring: "@ + th_text(s.pool_scoring_hash_rate) + "\n"@ + "Active workers: "@
        + grouped(s.pool_active_workers as nat) + "\n"@ + "Round probability: "@
        + s.round_probability@ + "\n"@
}

fn push_sats(out: &mut String, amount: u64)
    ensures
        final(out)@ == old(out)@ + sats_text(amount),
{
    push_grouped(out, amount);
    out.append(" SAT");
    assert(out@ =~= old(out)@ + sats_text(amount));
}

fn push_th(out: &mut String, amount: u64)
    ensures
        final(out)@ == old(out)@ + th_text(amount),
{
    push_grouped(out, amount);
    out.append(" Th/s");
    assert(out@ =~= old(out)@ + th_text(amount));
}

/// The second as chrono takes it: beyond the largest `i64`, the largest.
fn second_of(unix_seconds: u64) -> (second: i64)
    ensures
        second == unix_seconds || (second == i64::MAX && unix_seconds > i64::MAX),
{
    if unix_seconds > i64::MAX as u64 {
        i64::MAX
    } else {
        unix_seconds as i64
    }
}

/// Writes the reply to a status query.
pub fn render_user_status(profile: &UserProfile) -> (text: String)
    ensures
        text@ == user_status_text(*profile),
{
    let mut text = String::from_str("User Status\n\n");
    text.append("Reward: ");
    push_sats(&mut text, profile.confirmed_reward);
    text.append("\n");
    text.append("Unconfirmed reward: ");
    push_sats(&mut text, profile.unconfirmed_reward);
    text.append("\n");
    text.append("Estimate reward (block): ");
    push_sats(&mut text, profile.estimated_reward);
    text.append("\n\n");
    text.append("Hashrate 5m: ");
    push_th(&mut text, profile.hash_rate_5m);
    text.append("\n");
    text.append("Hashrate 60m: ");
    push_th(&mut text, profile.hash_rate_60m);
    text.append("\n");
    text.append("Hashrate 24h: ");
    push_th(&mut text, profile.hash_rate_24h);
    text.append("\n");
    text.append("Hashrate scoring: ");
    push_th(&mut text, profile.hash_rate_scoring);
    text.append("\n");
    text.append("Hashrate yesterday: ");
    push_th(&mut text, profile.hash_rate_yesterday);
    text.append("\n\n");
    text.append("Ok workers: ");
    push_decimal(&mut text, profile.ok_workers as u64);
    text.append("\n");
    text.append("Low workers: ");
    push_decimal(&mut text, profile.low_workers as u64);
    text.append("\n");
    text.append("Off workers: ");
    push_decimal(&mut text, profile.off_workers as u64);
    text.append("\n");
    text.append("Disabled workers: ");
    push_decimal(&mut text, profile.dis_workers as u64);
    text
}

/// Writes the paragraph of one worker, given the text of its last share's
/// date.
pub fn render_worker(worker: &Worker, last_share: &str) -> (text: String)
    ensures
        text@ == worker_block(*worker, last_share@),
{
    let mut text = String::new();
    let (_, own) = split_once(worker.name.as_str(), '.');
    match own {
        Some(own) => {
            text.append("Worker: ");
            text.append(own);
            text.append("\n");
            assert(text@ =~= worker_title(worker.name@));
        },
        None => {},
    }
    text.append("Status: ");
    text.append(worker.state.as_str());
    text.append("\n");
    text.append("Last share: ");
    text.append(last_share);
    text.append("\n");
    text.append("Hashrate scoring: ");
    push_th(&mut text, worker.hash_rate_scoring);
    text.append("\n");
    text.append("Hashrate 5m: ");
    push_th(&mut text, worker.hash_rate_5m);
    text.append("\n");
    text.append("Hashrate 60m: ");
    push_th(&mut text, worker.hash_rate_60m);
    text.append("\n");
    text.append("Hashrate 24h: ");
    push_th(&mut text, worker.hash_rate_24h);
    text.append("\n\n");
    text
}

/// Writes the reply to a workers query.
pub fn render_workers(workers: &Vec<Worker>) -> (text: String)
    ensures
        text@ == workers_text(workers@),
{
    let mut text = String::from_str("Workers\n\n");
    let mut i: usize = 0;
    while i < workers.len()
        invariant
            i <= workers.len(),
            text@ == workers_text(workers@.take(i as int)),
        decreases workers.len() - i,
    {
        let worker = &workers[i];
        let last_share = format_date(second_of(worker.last_share), "%Y-%m-%d %H:%M:%S");
        let block = render_worker(worker, last_share.as_str());
        text.append(block.as_str());
        proof {
            assert(workers@.take(i as int + 1).drop_last() =~= workers@.take(i as int));
            assert(workers@.take(i as int + 1).last() == workers@[i as int]);
        }
        i = i + 1;
    }
    assert(workers@.take(i as int) =~= workers@);
    text
}

/// Writes the line of one day, given the text of its date.
pub fn render_reward(reward: &DailyReward, date: &str) -> (text: String)
    ensures
        text@ == reward_line(*reward, date@),
{
    let mut text = String::from_str(date);
    text.append(": ");
    push_sats(&mut text, reward.total_reward);
    text.append("\n");
    text
}

/// Writes the reply to a rewards query.
pub fn render_daily_rewards(rewards: &Vec<DailyReward>) -> (text: String)
    ensures
        text@ == daily_rewards_text(rewards@),
{
    let mut text = String::from_str("Daily Rewards\n\n");
    let mut i: usize = 0;
    while i < rewards.len()
        invariant
            i <= rewards.len(),
            text@ == daily_rewards_text(rewards@.take(i as int)),
        decreases rewards.len() - i,
    {
        let reward = &rewards[i];
        let date = format_date(second_of(reward.date), "%Y-%m-%d");
        let line = render_reward(reward, date.as_str());
        text.append(line.as_str());
        proof {
            assert(rewards@.take(i as int + 1).drop_last() =~= rewards@.take(i as int));
            assert(rewards@.take(i as int + 1).last() == rewards@[i as int]);
        }
        i = i + 1;
    }
    assert(rewards@.take(i as int) =~= rewards@);
    text
}

/// Writes the reply to a pool query.
pub fn render_pool_status(stats: &PoolStats) -> (text: String)
    ensures
        text@ == pool_status_text(*stats),
{
    let mut text = String::from_str("Pool Status\n\n");
    text.append("Luck 10 blocks: ");
    text.append(stats.luck_b10.as_str());
    text.append("\n");
    text.append("Luck 50 blocks: ");
    text.append(stats.luck_b50.as_str());
    text.append("\n");
    text.append("Luck 250 blocks: ");
    text.append(stats.luck_b250.as_str());
    text.append("\n");
    text.append("Hashrate scoring: ");
    push_th(&mut text, stats.pool_scoring_hash_rate);
    text.append("\n");
    text.append("Active workers: ");
    push_grouped(&mut text, stats.pool_active_workers as u64);
    text.append("\n");
    text.append("Round probability: ");
    text.append(stats.round_probability.as_str());
    text.append("\n");
    text
}

} // verus!
