//! `/ping`: the gateway's latency, and how long two API requests take.
use vstd::prelude::*;
use crate::response::{empty_embed, EmbedData, EmbedFieldView, EmbedView};
use crate::text::{dec_nat, push_dec_u128, push_dec_u64, push_str, string_of};

verus! {

/// `/ping`: see my ping!
#[derive(Debug)]
pub struct Ping {}

/// What the gateway knows of its latency, in milliseconds.
#[derive(Debug)]
pub struct Latency {
    /// The average heartbeat latency.
    pub average: Option<u128>,
    /// How long ago the last acknowledgement came.
    pub received_ago: Option<u128>,
    /// How long ago the last heartbeat was sent.
    pub sent_ago: Option<u128>,
    /// The recent heartbeats' latencies.
    pub recent: Vec<u128>,
    /// How many heartbeats were recorded.
    pub periods: u64,
}

/// The lines of the recent heartbeats, numbered from one.
pub open spec fn heartbeat_lines(recent: Seq<u128>) -> Seq<char>
    decreases recent.len(),
{
    if recent.len() == 0 {
        seq![]
    } else {
        heartbeat_lines(recent.drop_last()) + dec_nat(recent.len()) + " - "@ + dec_nat(recent.last() as nat)
            + " milliseconds\n"@
    }
}

/// An optional field.
pub open spec fn opt_field(value: Option<u128>, name: Seq<char>, before: Seq<char>, after: Seq<char>) -> Seq<EmbedFieldView> {
    match value {
        Some(v) => seq![EmbedFieldView { name, value: before + dec_nat(v as nat) + after, inline: true }],
        None => seq![],
    }
}

/// The latency embed.
pub open spec fn ping_embed(l: Latency, accent: u32) -> EmbedView {
    EmbedView {
        colour: Some(accent),
        description: Some("🏓 Pinging!"@),
        fields: opt_field(l.average, "Average Latency"@, "`"@, "` milliseconds"@)
            + opt_field(l.received_ago, "Last Acknowledgement"@, seq![], " milliseconds ago"@)
            + opt_field(l.sent_ago, "Hearbeat Sent"@, seq![], " milliseconds ago"@)
            + if heartbeat_lines(l.recent@).len() > 0 {
                seq![EmbedFieldView {
                    name: "Hearbeats"@,
                    value: "**Total Heartbeats Recorded:** `"@ + dec_nat(l.periods as nat) + "`\n```"@
                        + heartbeat_lines(l.recent@) + "```"@,
                    inline: false,
                }]
            } else {
                seq![]
            },
        ..empty_embed()
    }
}

fn add_opt_field(e: &mut EmbedData, value: Option<u128>, name: &str, before: &str, after: &str)
    ensures
        final(e)@ == (EmbedView { fields: old(e)@.fields + opt_field(value, name@, before@, after@), ..old(e)@ }),
{
    match value {
        Some(v) => {
            let mut s = string_of(before);
            push_dec_u128(&mut s, v);
            push_str(&mut s, after);
            e.add_field(name, s.as_str(), true);
        },
        None => {},
    }
    assert(e@.fields =~= old(e)@.fields + opt_field(value, name@, before@, after@));
}

impl Ping {
    /// The latency embed: the average latency, the last acknowledgement and
    /// heartbeat, and the recent heartbeats.
    pub fn latency_embed(&self, l: &Latency, accent: u32) -> (e: EmbedData)
        ensures
            e@ == ping_embed(*l, accent),
    {
        let mut e = EmbedData::new();
        e.colour = Some(accent);
        e.description = Some(string_of("🏓 Pinging!"));
        add_opt_field(&mut e, l.average, "Average Latency", "`", "` milliseconds");
        add_opt_field(&mut e, l.received_ago, "Last Acknowledgement", "", " milliseconds ago");
        add_opt_field(&mut e, l.sent_ago, "Hearbeat Sent", "", " milliseconds ago");
        let mut heartbeats = String::new();
        let n = l.recent.len();
        for i in 0..n
            invariant
                n == l.recent@.len(),
                heartbeats@ == heartbeat_lines(l.recent@.take(i as int)),
        {
            assert(l.recent@.take(i + 1).drop_last() =~= l.recent@.take(i as int));
            push_dec_u64(&mut heartbeats, (i + 1) as u64);
            push_str(&mut heartbeats, " - ");
            push_dec_u128(&mut heartbeats, l.recent[i]);
            push_str(&mut heartbeats, " milliseconds\n");
        }
        assert(l.recent@.take(n as int) =~= l.recent@);
        let ghost before = e@;
        if heartbeats.as_str().unicode_len() > 0 {
            let mut v = string_of("**Total Heartbeats Recorded:** `");
            push_dec_u64(&mut v, l.periods);
            push_str(&mut v, "`\n```");
            push_str(&mut v, heartbeats.as_str());
            push_str(&mut v, "```");
            e.add_field("Hearbeats", v.as_str(), false);
        }
        proof {
            reveal_strlit("");
        }
        assert(e@.fields =~= ping_embed(*l, accent).fields);
        e
    }

    /// The text once the answer was sent, `ms` milliseconds after it was
    /// begun.
    pub fn sent_text(ms: u128) -> (s: String)
        ensures
            s@ == "Pong!\n`Send MESSAGE` API request achnowledged and received in `"@ + dec_nat(ms as nat) + "` milliseconds!"@,
    {
        let mut s = string_of("Pong!\n`Send MESSAGE` API request achnowledged and received in `");
        push_dec_u128(&mut s, ms);
        push_str(&mut s, "` milliseconds!");
        s
    }

    /// The text once a user was looked up too, in `ms` milliseconds.
    pub fn lookup_text(sent: &str, ms: u128) -> (s: String)
        ensures
            s@ == sent@ + "\n`Get USER` API request achnowledged and received in `"@ + dec_nat(ms as nat) + "` milliseconds!"@,
    {
        let mut s = string_of(sent);
        push_str(&mut s, "\n`Get USER` API request achnowledged and received in `");
        push_dec_u128(&mut s, ms);
        push_str(&mut s, "` milliseconds!");
        s
    }
}

} // verus!
