//! `/quote remove`: remove a saved quote.
use std::collections::HashMap;
use vstd::prelude::*;
use crate::response::{empty_embed, empty_reply, EmbedData, EmbedView, Reply, ReplyView};
use crate::text::{dec_nat, push_dec_u64, push_str, string_of};

verus! {

broadcast use vstd::std_specs::hash::group_hash_axioms;

/// A saved quote: who said it, what, and where.
#[derive(Debug)]
pub struct Quote {
    pub author: u64,
    pub content: String,
    pub guild_id: Option<u64>,
    pub channel_id: u64,
    pub id: u64,
}

/// `/quote remove`: remove a particular quote (Owner Only)!
#[derive(Debug)]
pub struct Remove {
    /// The quote to remove
    pub id: i64,
}

/// What came of a request to remove a quote.
#[derive(Debug)]
pub enum QuoteRemoval {
    /// The author is not a bot owner.
    NotOwner,
    /// There is no quote under that ID.
    Missing,
    /// The quote taken out.
    Removed(Quote),
}

/// The link to where a quote was said.
pub open spec fn quote_url(q: Quote) -> Seq<char> {
    "https://discord.com/channels/"@ + match q.guild_id {
        Some(g) => dec_nat(g as nat) + "/"@,
        None => seq![],
    } + dec_nat(q.channel_id as nat) + "/"@ + dec_nat(q.id as nat)
}

impl Remove {
    /// Takes the quote numbered by the command out of the saved quotes; the
    /// others stay as they were.
    pub fn take_quote(&self, quotes: &mut HashMap<usize, Quote>) -> (r: Option<Quote>)
        requires
            0 <= self.id <= usize::MAX,
        ensures
            !old(quotes)@.contains_key(self.id as usize) ==> r is None && final(quotes)@ == old(quotes)@,
            old(quotes)@.contains_key(self.id as usize) ==> r == Some(old(quotes)@[self.id as usize])
                && final(quotes)@ == old(quotes)@.remove(self.id as usize),
    {
        let id = self.id as usize;
        quotes.remove(&id)
    }

    /// The command as a bot owner may run it: the quote is taken out when
    /// `author_id` is one of `owners`; anyone else is refused and the saved
    /// quotes stay as they were.
    pub fn remove_as(&self, author_id: u64, owners: &Vec<u64>, quotes: &mut HashMap<usize, Quote>) -> (r: QuoteRemoval)
        requires
            owners@.contains(author_id) ==> 0 <= self.id <= usize::MAX,
        ensures
            !owners@.contains(author_id) ==> r == QuoteRemoval::NotOwner && final(quotes)@ == old(quotes)@,
            owners@.contains(author_id) && !old(quotes)@.contains_key(self.id as usize) ==> r == QuoteRemoval::Missing
                && final(quotes)@ == old(quotes)@,
            owners@.contains(author_id) && old(quotes)@.contains_key(self.id as usize) ==> r == QuoteRemoval::Removed(
                old(quotes)@[self.id as usize],
            ) && final(quotes)@ == old(quotes)@.remove(self.id as usize),
    {
        let mut i: usize = 0;
        let mut owner = false;
        while i < owners.len()
            invariant
                i <= owners@.len(),
                owner <==> exists|j: int| 0 <= j < i && owners@[j] == author_id,
            decreases owners@.len() - i,
        {
            if owners[i] == author_id {
                owner = true;
            }
            i = i + 1;
        }
        if !owner {
            assert(!owners@.contains(author_id));
            return QuoteRemoval::NotOwner;
        }
        match self.take_quote(quotes) {
            Some(q) => QuoteRemoval::Removed(q),
            None => QuoteRemoval::Missing,
        }
    }

    /// The answer when there is no such quote, to the author alone.
    pub fn missing() -> (r: Reply)
        ensures
            r@ == (ReplyView { content: Some("That quote is not present!"@), ephemeral: true, ..empty_reply() }),
    {
        Reply { content: Some(string_of("That quote is not present!")), ephemeral: true, ..Reply::new() }
    }

    /// The removed quote: its content under the name of who said it, linked
    /// to where it was said.
    pub fn removed(&self, quote: &Quote, speaker_name: &str, speaker_avatar: &str, accent: u32) -> (r: Reply)
        ensures
            r@ == (ReplyView {
                embeds: seq![EmbedView {
                    colour: Some(accent),
                    description: Some(quote.content@),
                    author_name: Some(speaker_name@ + " - Quote "@ + crate::text::dec_int(self.id as int) + " Removed"@),
                    author_icon_url: Some(speaker_avatar@),
                    author_url: Some(quote_url(*quote)),
                    ..empty_embed()
                }],
                ..empty_reply()
            }),
    {
        let mut e = EmbedData::new();
        e.colour = Some(accent);
        e.description = Some(quote.content.clone());
        let mut name = string_of(speaker_name);
        push_str(&mut name, " - Quote ");
        crate::text::push_dec_i64(&mut name, self.id);
        push_str(&mut name, " Removed");
        e.author_name = Some(name);
        e.author_icon_url = Some(string_of(speaker_avatar));
        let mut url = string_of("https://discord.com/channels/");
        match quote.guild_id {
            Some(g) => {
                push_dec_u64(&mut url, g);
                push_str(&mut url, "/");
            },
            None => {},
        }
        push_dec_u64(&mut url, quote.channel_id);
        push_str(&mut url, "/");
        push_dec_u64(&mut url, quote.id);
        assert(url@ =~= quote_url(*quote));
        e.author_url = Some(url);
        let mut r = Reply::new();
        let ghost ev = e@;
        r.embeds.push(e);
        assert(r@.embeds =~= seq![ev]);
        r
    }
}

} // verus!
