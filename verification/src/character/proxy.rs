//! `/character proxy`: configure a prefix for proxying messages.
use vstd::prelude::*;
use crate::character::{profile_list, CharacterProfile};
use crate::response::{empty_embed, empty_reply, EmbedData, EmbedView, Reply, ReplyView};
use crate::text::{dec_nat, push_dec_u64, push_str, string_of};

verus! {

/// `/character proxy`: configure a prefix for proxying messages.
#[derive(Debug)]
pub struct Command {
    /// The character that should be modified
    pub name: String,
    /// The prefix to cause the proxy. e.g. "+n" so that "+n hi!" appears as the character
    pub prefix: String,
    /// Set to true to remove the prefix
    pub remove: Option<bool>,
}

/// The character's icon in a channel: the NSFW one (when it has one) in an
/// NSFW channel, else the SFW one.
pub open spec fn channel_icon(c: CharacterProfile, channel_nsfw: Option<bool>) -> Seq<char> {
    if channel_nsfw == Some(true) && c.nsfw_icon is Some { c.nsfw_icon->0@ } else { c.sfw_icon@ }
}

pub(crate) fn channel_icon_string(c: &CharacterProfile, channel_nsfw: Option<bool>) -> (s: String)
    ensures
        s@ == channel_icon(*c, channel_nsfw),
{
    match (channel_nsfw, &c.nsfw_icon) {
        (Some(true), Some(i)) => i.clone(),
        _ => c.sfw_icon.clone(),
    }
}

/// The note shown with the proxy's look.
pub open spec fn proxy_note() -> Seq<char> {
    "Your proxied messages will look like this now!\n\n*Note:* If I am using your avatar, make sure that I have been set with an icon! `/character icon`"@
}

impl Command {
    /// The answer when the author has no character of that name.
    pub fn not_found(&self, author_id: u64, characters: &Vec<CharacterProfile>) -> (r: Reply)
        ensures
            r@ == (ReplyView {
                content: Some("I'm afraid that <@"@ + dec_nat(author_id as nat) + "> has no characters with the name `"@ + self.name@
                    + "`! They do however, have the following profiles configured...\n"@ + profile_list(characters@)),
                ephemeral: true,
                ..empty_reply()
            }),
    {
        let mut s = string_of("I'm afraid that <@");
        push_dec_u64(&mut s, author_id);
        push_str(&mut s, "> has no characters with the name `");
        push_str(&mut s, self.name.as_str());
        push_str(&mut s, "`! They do however, have the following profiles configured...\n");
        let ghost head = s@;
        let n = characters.len();
        for i in 0..n
            invariant
                n == characters@.len(),
                s@ == head + profile_list(characters@.take(i as int)),
        {
            assert(characters@.take(i + 1).drop_last() =~= characters@.take(i as int));
            push_str(&mut s, "- ");
            push_str(&mut s, characters[i].name.as_str());
            push_str(&mut s, ": ");
            push_str(&mut s, characters[i].sfw_summary.as_str());
            push_str(&mut s, "\n");
            assert(s@ =~= head + profile_list(characters@.take(i + 1)));
        }
        assert(characters@.take(n as int) =~= characters@);
        Reply { content: Some(s), ephemeral: true, ..Reply::new() }
    }

    /// Sets or removes the character's prefix, and says so to the author
    /// alone: a removal in words, a new prefix by showing how the proxy will
    /// look.
    pub fn apply(&self, c: CharacterProfile, channel_nsfw: Option<bool>, accent: u32) -> (r: (CharacterProfile, Reply))
        ensures
            r.0 == (CharacterProfile {
                prefix: if self.remove == Some(true) { None } else { Some(self.prefix) },
                ..c
            }),
            self.remove == Some(true) ==> r.1@ == (ReplyView {
                content: Some("Prefix `"@ + self.prefix@ + "` removed from character "@ + self.name@ + "!"@),
                ephemeral: true,
                ..empty_reply()
            }),
            self.remove != Some(true) ==> r.1@ == (ReplyView {
                embeds: seq![EmbedView {
                    colour: Some(accent),
                    author_icon_url: Some(channel_icon(c, channel_nsfw)),
                    author_name: Some(self.name@),
                    description: Some(proxy_note()),
                    ..empty_embed()
                }],
                ephemeral: true,
                ..empty_reply()
            }),
    {
        let mut c = c;
        if self.remove == Some(true) {
            c.prefix = None;
            let mut s = string_of("Prefix `");
            push_str(&mut s, self.prefix.as_str());
            push_str(&mut s, "` removed from character ");
            push_str(&mut s, self.name.as_str());
            push_str(&mut s, "!");
            return (c, Reply { content: Some(s), ephemeral: true, ..Reply::new() });
        }
        let ghost c0 = c;
        let mut e = EmbedData::new();
        e.colour = Some(accent);
        e.author_icon_url = Some(channel_icon_string(&c, channel_nsfw));
        e.author_name = Some(self.name.clone());
        e.description = Some(string_of(
            "Your proxied messages will look like this now!\n\n*Note:* If I am using your avatar, make sure that I have been set with an icon! `/character icon`",
        ));
        c.prefix = Some(self.prefix.clone());
        let mut r = Reply::new();
        let ghost ev = e@;
        r.embeds.push(e);
        r.ephemeral = true;
        assert(r@.embeds =~= seq![ev]);
        (c, r)
    }
}

} // verus!
