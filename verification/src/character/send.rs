//! `/character send`: send a message as a character!
use vstd::prelude::*;
use crate::character::proxy::{channel_icon, channel_icon_string};
use crate::character::{character_not_found, not_found_text, CharacterProfile};
use crate::response::{empty_embed, empty_reply, EmbedData, EmbedView, Reply, ReplyView};
use crate::text::{push_str, string_of};

verus! {

/// How long the confirmation of a mirrored message stays, in seconds.
pub const DELAY_TIME: u64 = 10;

/// `/character send`: send a message as a character!
#[derive(Debug)]
pub struct Command {
    /// The character that should be proxied
    pub name: String,
    /// The message to send
    pub message: String,
}

impl Command {
    /// The answer when the author has no character of that name.
    pub fn not_found(&self, author_id: u64, characters: &Vec<CharacterProfile>) -> (r: Reply)
        ensures
            r@ == (ReplyView { content: Some(not_found_text(author_id, self.name@, characters@)), ephemeral: true, ..empty_reply() }),
    {
        character_not_found(author_id, self.name.as_str(), characters)
    }

    /// The webhook's name and avatar: the character and the author, and the
    /// character's icon for the channel.
    pub fn webhook_identity(c: &CharacterProfile, author_name: &str, channel_nsfw: Option<bool>) -> (r: (String, String))
        ensures
            r.0@ == c.name@ + " ["@ + author_name@ + "]"@,
            r.1@ == channel_icon(*c, channel_nsfw),
    {
        let mut name = c.name.clone();
        push_str(&mut name, " [");
        push_str(&mut name, author_name);
        push_str(&mut name, "]");
        (name, channel_icon_string(c, channel_nsfw))
    }

    /// The confirmation once the webhook sent the message, to the author
    /// alone; it is deleted after `DELAY_TIME` seconds.
    pub fn mirrored() -> (r: Reply)
        ensures
            r@ == (ReplyView { content: Some("Mirrored!"@), ephemeral: true, ..empty_reply() }),
    {
        Reply { content: Some(string_of("Mirrored!")), ephemeral: true, ..Reply::new() }
    }

    /// Without a webhook, the bot sends the message in an embed under the
    /// character's nickname (else name) and the author, in the character's
    /// colour (else the accent).
    pub fn fallback(&self, c: &CharacterProfile, author_name: &str, channel_nsfw: Option<bool>, accent: u32) -> (r: Reply)
        ensures
            r@ == (ReplyView {
                embeds: seq![EmbedView {
                    author_name: Some(match c.nickname { Some(n) => n@, None => c.name@ } + " ["@ + author_name@ + "]"@),
                    author_icon_url: Some(channel_icon(*c, channel_nsfw)),
                    colour: Some(match c.colour { Some(col) => col, None => accent }),
                    description: Some(self.message@),
                    ..empty_embed()
                }],
                ..empty_reply()
            }),
    {
        let mut e = EmbedData::new();
        let mut name = match &c.nickname { Some(n) => n.clone(), None => c.name.clone() };
        push_str(&mut name, " [");
        push_str(&mut name, author_name);
        push_str(&mut name, "]");
        e.author_name = Some(name);
        e.author_icon_url = Some(channel_icon_string(c, channel_nsfw));
        e.colour = Some(match c.colour { Some(col) => col, None => accent });
        e.description = Some(self.message.clone());
        let mut r = Reply::new();
        let ghost ev = e@;
        r.embeds.push(e);
        assert(r@.embeds =~= seq![ev]);
        r
    }
}

} // verus!
