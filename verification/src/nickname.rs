//! `/luro nickname`: change the bot's nickname, or clear it.
use vstd::prelude::*;
use crate::response::{empty_reply, Reply, ReplyView};
use crate::text::string_of;

verus! {

/// `/luro nickname`: change my nickname! Or clear it.
#[derive(Debug)]
pub struct Command {
    /// Set my nickname to this! Leave me blank to clear my nickname
    pub name: Option<String>,
}

/// The nickname can only be changed in a guild.
#[derive(PartialEq, Eq, Structural, Clone, Copy, Debug)]
pub enum NicknameError {
    NotGuild,
}

impl Command {
    /// The guild whose nickname to change: only inside a guild.
    pub fn guild(in_guild: Option<u64>) -> (r: Result<u64, NicknameError>)
        ensures
            r == match in_guild { Some(g) => Ok::<u64, NicknameError>(g), None => Err(NicknameError::NotGuild) },
    {
        match in_guild {
            Some(g) => Ok(g),
            None => Err(NicknameError::NotGuild),
        }
    }

    /// The confirmation once the nickname was changed, to the author alone.
    pub fn done() -> (r: Reply)
        ensures
            r@ == (ReplyView { content: Some("Done!!"@), ephemeral: true, ..empty_reply() }),
    {
        Reply { content: Some(string_of("Done!!")), ephemeral: true, ..Reply::new() }
    }
}

} // verus!
