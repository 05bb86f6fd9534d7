//! `/hello` and `/count`: saying hello, and counting up a shared number.
use vstd::prelude::*;
use crate::response::{empty_reply, Reply, ReplyView};
use crate::text::{dec_nat, push_dec_u64, push_str, string_of};

verus! {

/// The greeting: the name the bot goes by and a mention of who it greets.
pub open spec fn greeting(name: Seq<char>, id: u64) -> Seq<char> {
    "Hello World! I am **"@ + name + "**. It's nice to meet you, <@"@ + dec_nat(id as nat) + ">!"@
}

fn greeting_string(name: &str, id: u64) -> (s: String)
    ensures
        s@ == greeting(name@, id),
{
    let mut s = string_of("Hello World! I am **");
    push_str(&mut s, name);
    push_str(&mut s, "**. It's nice to meet you, <@");
    push_dec_u64(&mut s, id);
    push_str(&mut s, ">!");
    s
}

/// `/hello`: say hello.
#[derive(Debug)]
pub struct Hello {}

impl Hello {
    /// The bot greets the author.
    pub fn handle_command(&self, bot_name: &str, author_id: u64) -> (r: Reply)
        ensures
            r@ == (ReplyView { content: Some(greeting(bot_name@, author_id)), ..empty_reply() }),
    {
        Reply::text(greeting_string(bot_name, author_id))
    }
}

/// The classic `/hello`.
#[derive(Debug)]
pub struct HelloCommand {}

impl HelloCommand {
    /// Greets the author by mention, naming the author where the bot's name
    /// belongs; without a known author, the bot gives its own name and says
    /// it cannot see theirs.
    pub fn run_command(&self, author: Option<(u64, String)>, bot_name: &str) -> (r: Reply)
        ensures
            r@ == (ReplyView {
                content: Some(match author {
                    Some((id, name)) => greeting(name@, id),
                    None => "Hello World! I am **"@ + bot_name@
                        + "**. It's nice to meet you, but unfortunately I cannot see your name :("@,
                }),
                ..empty_reply()
            }),
    {
        match author {
            Some((id, name)) => Reply::text(greeting_string(name.as_str(), id)),
            None => {
                let mut s = string_of("Hello World! I am **");
                push_str(&mut s, bot_name);
                push_str(&mut s, "**. It's nice to meet you, but unfortunately I cannot see your name :(");
                Reply::text(s)
            },
        }
    }
}

/// `/count`: test to see if the framework is globally mutable.
#[derive(Debug)]
pub struct CountCommand {}

impl CountCommand {
    /// Counts the shared number up and tells it; a shared number that
    /// cannot be had (`None`: its lock is poisoned) is told so.
    pub fn run_command(&self, count: &mut Option<u64>) -> (r: Reply)
        requires
            *old(count) matches Some(c) ==> c < u64::MAX,
        ensures
            *final(count) == match *old(count) {
                Some(c) => Some((c + 1) as u64),
                None => None,
            },
            r@ == (ReplyView {
                content: Some(match *old(count) {
                    Some(c) => "Here is your number: "@ + dec_nat((c + 1) as nat),
                    None => "Count is poisoned :("@,
                }),
                ..empty_reply()
            }),
    {
        match count {
            Some(c) => {
                *c = *c + 1;
                let mut s = string_of("Here is your number: ");
                push_dec_u64(&mut s, *c);
                Reply::text(s)
            },
            None => Reply::text(string_of("Count is poisoned :(")),
        }
    }
}

} // verus!
