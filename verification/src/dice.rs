//! `/dice`: rolling dice. The rolls themselves come from the dice roller;
//! these commands decide how they are shown.
use vstd::prelude::*;
use crate::response::{empty_reply, Reply, ReplyView};
use crate::text::{push_str, string_of};

verus! {

/// `/dice direction`: roll for a direction, such as `North East`!
#[derive(Debug)]
pub struct Direction {
    /// Set your message to ephemeral, useful for if you don't want someone to see your rolls.
    pub ephemeral: Option<bool>,
}

/// `/dice stats`: get some stats for your character sheet.
#[derive(Debug)]
pub struct Stats {
    /// Set your message to ephemeral, useful for if you don't want someone to see your rolls.
    pub ephemeral: Option<bool>,
}

/// `/dice`: roll those freaking dice!!! The help, roll and simple
/// subcommands' options are not part of these sources.
#[derive(Debug)]
pub enum Dice {
    Direction(Direction),
    Help,
    Roll,
    Simple,
    Stats(Stats),
}

/// The stats' text: a heading, then the rolled stats.
pub open spec fn stats_text(rolled: Seq<char>) -> Seq<char> {
    "**Your stats, as requested:**\n"@ + rolled
}

fn stats_string(rolled: &str) -> (s: String)
    ensures
        s@ == stats_text(rolled@),
{
    let mut s = string_of("**Your stats, as requested:**\n");
    push_str(&mut s, rolled);
    s
}

impl Direction {
    /// The rolled direction, to the roller alone if asked.
    pub fn handle_command(&self, rolled: &str) -> (r: Reply)
        ensures
            r@ == (ReplyView { content: Some(rolled@), ephemeral: self.ephemeral == Some(true), ..empty_reply() }),
    {
        Reply { content: Some(string_of(rolled)), ephemeral: self.ephemeral == Some(true), ..Reply::new() }
    }
}

impl Stats {
    /// The rolled stats, to the roller alone if asked.
    pub fn handle_command(&self, rolled: &str) -> (r: Reply)
        ensures
            r@ == (ReplyView { content: Some(stats_text(rolled@)), ephemeral: self.ephemeral == Some(true), ..empty_reply() }),
    {
        Reply { content: Some(stats_string(rolled)), ephemeral: self.ephemeral == Some(true), ..Reply::new() }
    }
}

/// The classic `/dice direction`.
#[derive(Debug)]
pub struct DiceRollDirectionCommand {
    /// Set your message to ephemeral, useful for if you don't want someone to see your rolls.
    pub ephemeral: Option<bool>,
}

/// The classic `/dice stats`.
#[derive(Debug)]
pub struct DiceStatsCommand {
    /// Set your message to ephemeral, useful for if you don't want someone to see your rolls.
    pub ephemeral: Option<bool>,
}

impl DiceRollDirectionCommand {
    /// The rolled direction, to the roller alone if asked.
    pub fn run_command(&self, rolled: &str) -> (r: Reply)
        ensures
            r@ == (ReplyView { content: Some(rolled@), ephemeral: self.ephemeral == Some(true), ..empty_reply() }),
    {
        let mut r = Reply::new();
        if let Some(e) = self.ephemeral {
            if e {
                r.ephemeral = true;
            }
        }
        r.content = Some(string_of(rolled));
        r
    }
}

impl DiceStatsCommand {
    /// The rolled stats, to the roller alone if asked.
    pub fn run_command(&self, rolled: &str) -> (r: Reply)
        ensures
            r@ == (ReplyView { content: Some(stats_text(rolled@)), ephemeral: self.ephemeral == Some(true), ..empty_reply() }),
    {
        let mut r = Reply::new();
        if let Some(e) = self.ephemeral {
            if e {
                r.ephemeral = true;
            }
        }
        r.content = Some(stats_string(rolled));
        r
    }
}

} // verus!
