//! `/marry divorce`: ending a marriage.
use vstd::prelude::*;
use crate::info_command::rows_view;
use crate::response::{empty_embed, empty_reply, Button, EmbedData, EmbedFieldView, EmbedView, Reply, ReplyView};
use crate::text::{dec_nat, push_dec_u64, push_str, string_of};

verus! {

/// A marriage as the database keeps it.
#[derive(Debug)]
pub struct Marriage {
    pub proposer_id: u64,
    pub proposee_id: u64,
    pub divorced: bool,
    pub rejected: bool,
    pub reason: String,
}

/// `/marry divorce`: it's over.
#[derive(Debug)]
pub struct Divorce {
    /// Who no longer deserves your love?
    pub user: u64,
    /// Why do they no longer desrve your love?
    pub reason: String,
}

/// Someone in a marriage, as the answer shows them.
#[derive(Debug)]
pub struct Spouse {
    pub user_id: u64,
    pub name: String,
    pub avatar: String,
}

/// The divorce's announcement.
pub open spec fn divorce_embed(reason: Seq<char>, proposer: Spouse, proposee: Spouse, danger: u32) -> EmbedView {
    EmbedView {
        colour: Some(danger),
        title: Some(proposer.name@ + " has terminated their marriage with "@ + proposee.name@ + "!"@),
        thumbnail_url: Some(proposer.avatar@),
        fields: seq![
            EmbedFieldView { name: "Their Reason"@, value: reason, inline: false },
            EmbedFieldView { name: "Approvers"@, value: "None!"@, inline: false },
            EmbedFieldView { name: "Disapprovers"@, value: "None!"@, inline: false },
        ],
        ..empty_embed()
    }
}

impl Divorce {
    /// The marriage record to store: divorced, with the reason.
    pub fn record(&self, proposer_id: u64, proposee_id: u64) -> (m: Marriage)
        ensures
            m.proposer_id == proposer_id,
            m.proposee_id == proposee_id,
            m.divorced,
            !m.rejected,
            m.reason@ == self.reason@,
    {
        Marriage { proposer_id, proposee_id, divorced: true, rejected: false, reason: self.reason.clone() }
    }

    /// The announcement, telling the divorced user the bad news, with the
    /// marriage buttons.
    pub fn announce(&self, proposer: &Spouse, proposee: &Spouse, danger: u32, buttons: Vec<Vec<Button>>) -> (r: Reply)
        ensures
            r@ == (ReplyView {
                content: Some("Bad news <@"@ + dec_nat(self.user as nat) + ">..."@),
                embeds: seq![divorce_embed(self.reason@, *proposer, *proposee, danger)],
                components: rows_view(buttons@),
                ..empty_reply()
            }),
    {
        let mut e = EmbedData::new();
        e.colour = Some(danger);
        let mut title = string_of(proposer.name.as_str());
        push_str(&mut title, " has terminated their marriage with ");
        push_str(&mut title, proposee.name.as_str());
        push_str(&mut title, "!");
        e.title = Some(title);
        e.thumbnail_url = Some(proposer.avatar.clone());
        e.add_field("Their Reason", self.reason.as_str(), false);
        e.add_field("Approvers", "None!", false);
        e.add_field("Disapprovers", "None!", false);
        let mut content = string_of("Bad news <@");
        push_dec_u64(&mut content, self.user);
        push_str(&mut content, ">...");
        let mut r = Reply::new();
        r.content = Some(content);
        let ghost ev = e@;
        r.embeds.push(e);
        r.components = buttons;
        assert(ev.fields =~= divorce_embed(self.reason@, *proposer, *proposee, danger).fields);
        assert(r@.embeds =~= seq![divorce_embed(self.reason@, *proposer, *proposee, danger)]);
        assert(r@.components =~= rows_view(r.components@));
        r
    }
}

} // verus!
