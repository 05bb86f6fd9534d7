//! The owner's commands: assigning roles, clearing marriages, fake bans,
//! listing guilds and setting the log level.
use vstd::prelude::*;
use crate::moderation::{fmt_spec, purge_seconds, reason_value, PunishmentPurgeAmount, PunishmentReason};
use crate::response::{empty_embed, empty_reply, EmbedData, EmbedView, Reply, ReplyView};
use crate::text::{dec_nat, push_dec_u64, push_str, string_of};

verus! {

/// `/owner assign`: use the bot to assign a role to a user or self if not
/// defined. Bypasses all other restrictions.
#[derive(Debug)]
pub struct Assign {
    /// The role that should be assigned. It HAS to be below the bot for this to work.
    pub role: u64,
    /// Optionally the user to apply the role to. Applies to self if not defined.
    pub user: Option<u64>,
    /// Set this to instead remove the role
    pub remove: Option<bool>,
}

/// What `/owner assign` does.
#[derive(PartialEq, Eq, Structural, Clone, Copy, Debug)]
pub enum AssignAction {
    /// Not in a guild: nothing to do.
    NotGuild,
    /// Take the role from the user.
    Remove,
    /// Give the role to the user.
    Add,
}

impl Assign {
    /// Who gets or loses the role: the user named, else the author.
    pub fn target(&self, author_id: u64) -> (r: u64)
        ensures
            r == match self.user { Some(u) => u, None => author_id },
    {
        match self.user {
            Some(u) => u,
            None => author_id,
        }
    }

    /// What to do: outside a guild nothing, else remove the role when asked
    /// to, otherwise add it.
    pub fn action(&self, in_guild: bool) -> (r: AssignAction)
        ensures
            r == if !in_guild {
                AssignAction::NotGuild
            } else if self.remove == Some(true) {
                AssignAction::Remove
            } else {
                AssignAction::Add
            },
    {
        if !in_guild {
            AssignAction::NotGuild
        } else if self.remove == Some(true) {
            AssignAction::Remove
        } else {
            AssignAction::Add
        }
    }

    /// The confirmation, to the author alone, once the role was given or
    /// taken.
    pub fn done(&self, removed: bool, user_id: u64) -> (r: Reply)
        ensures
            r@ == (ReplyView {
                content: Some("Role <@&"@ + dec_nat(self.role as nat) + (if removed { "> removed from <@"@ } else { "> assigned to <@"@ })
                    + dec_nat(user_id as nat) + ">!"@),
                ephemeral: true,
                ..empty_reply()
            }),
    {
        let mut s = string_of("Role <@&");
        push_dec_u64(&mut s, self.role);
        if removed {
            push_str(&mut s, "> removed from <@");
        } else {
            push_str(&mut s, "> assigned to <@");
        }
        push_dec_u64(&mut s, user_id);
        push_str(&mut s, ">!");
        Reply { content: Some(s), ephemeral: true, ..Reply::new() }
    }
}

/// `/owner clear_marriage`: clears a marriage.
#[derive(Debug)]
pub struct ClearMarriage {
    /// First user to clear
    pub user_1: u64,
    /// Second user to clear
    pub user_2: u64,
}

impl ClearMarriage {
    /// The marriage's key in the database: the two IDs as signed numbers.
    pub fn marriage_key(&self) -> (k: (i64, i64))
        ensures
            k == (self.user_1 as i64, self.user_2 as i64),
    {
        (self.user_1 as i64, self.user_2 as i64)
    }

    /// The confirmation, to the author alone.
    pub fn handle_command(&self) -> (r: Reply)
        ensures
            r@ == (ReplyView { content: Some("Looks like they are single now..."@), ephemeral: true, ..empty_reply() }),
    {
        Reply { content: Some(string_of("Looks like they are single now...")), ephemeral: true, ..Reply::new() }
    }
}

/// `/owner fakeban`: ban a user (not really).
#[derive(Debug)]
pub struct Fakeban {
    /// The user to ban
    pub user_id: u64,
    /// Message history to purge in seconds. Defaults to 1 day. Max is 604800.
    pub purge: PunishmentPurgeAmount,
    /// The reason they should be banned.
    pub reason: PunishmentReason,
    /// Some added description to why they should be banned
    pub details: Option<String>,
}

impl Fakeban {
    /// The ban's worded reason and purge window in seconds.
    pub fn punishment(&self) -> (r: (String, i64))
        ensures
            r.0@ == fmt_spec(reason_value(self.reason), match self.details { Some(d) => Some(d@), None => None }),
            r.1 == purge_seconds(self.purge),
    {
        let details = match &self.details {
            Some(d) => Some(d.clone()),
            None => None,
        };
        (self.reason.fmt(details), self.purge.value())
    }

    /// Whether the user was told by direct message: only when a direct
    /// channel could be opened and the message went through.
    pub fn dm_successful(channel_opened: bool, sent: bool) -> (r: Option<bool>)
        ensures
            r == Some(channel_opened && sent),
    {
        if channel_opened { Some(sent) } else { Some(false) }
    }
}

/// A guild the bot is in.
#[derive(Debug)]
pub struct GuildEntry {
    pub name: String,
    pub guild_id: u64,
}

/// `/owner guilds`: information about all guilds.
#[derive(Debug)]
pub struct Guilds {
    /// Optionally include the guild ID
    pub show_id: Option<bool>,
}

/// A guild's line: its name and a link to it, and its ID when shown.
pub open spec fn guild_line(g: GuildEntry, show_id: bool) -> Seq<char> {
    "- "@ + g.name@ + " - <#"@ + dec_nat(g.guild_id as nat) + ">"@
        + (if show_id { " - "@ + dec_nat(g.guild_id as nat) } else { seq![] }) + "\n"@
}

/// The lines of all the guilds.
pub open spec fn guild_lines(gs: Seq<GuildEntry>, show_id: bool) -> Seq<char>
    decreases gs.len(),
{
    if gs.len() == 0 {
        seq![]
    } else {
        guild_lines(gs.drop_last(), show_id) + guild_line(gs.last(), show_id)
    }
}

impl Guilds {
    /// The list of the bot's guilds.
    pub fn interaction_command(&self, guilds: &Vec<GuildEntry>, accent: u32) -> (r: Reply)
        ensures
            r@ == (ReplyView {
                embeds: seq![EmbedView {
                    title: Some("All the guilds that I am in"@),
                    description: Some(guild_lines(guilds@, self.show_id == Some(true))),
                    colour: Some(accent),
                    ..empty_embed()
                }],
                ..empty_reply()
            }),
    {
        let show = self.show_id == Some(true);
        let mut s = String::new();
        let n = guilds.len();
        for i in 0..n
            invariant
                n == guilds@.len(),
                show == (self.show_id == Some(true)),
                s@ == guild_lines(guilds@.take(i as int), show),
        {
            assert(guilds@.take(i + 1).drop_last() =~= guilds@.take(i as int));
            push_str(&mut s, "- ");
            push_str(&mut s, guilds[i].name.as_str());
            push_str(&mut s, " - <#");
            push_dec_u64(&mut s, guilds[i].guild_id);
            push_str(&mut s, ">");
            if show {
                push_str(&mut s, " - ");
                push_dec_u64(&mut s, guilds[i].guild_id);
            }
            push_str(&mut s, "\n");
            assert(s@ =~= guild_lines(guilds@.take(i + 1), show));
        }
        assert(guilds@.take(n as int) =~= guilds@);
        let mut e = EmbedData::new();
        e.title = Some(string_of("All the guilds that I am in"));
        e.description = Some(s);
        e.colour = Some(accent);
        let mut r = Reply::new();
        let ghost ev = e@;
        r.embeds.push(e);
        assert(r@.embeds =~= seq![ev]);
        r
    }
}

/// A log level.
#[derive(PartialEq, Eq, Structural, Clone, Copy, Debug)]
pub enum LogLevel {
    Trace,
    Debug,
    Info,
    Warn,
    Error,
    Off,
}

/// The level's name.
pub open spec fn level_name(l: LogLevel) -> Seq<char> {
    match l {
        LogLevel::Trace => "TRACE"@,
        LogLevel::Debug => "DEBUG"@,
        LogLevel::Info => "INFO"@,
        LogLevel::Warn => "WARN"@,
        LogLevel::Error => "ERROR"@,
        LogLevel::Off => "OFF"@,
    }
}

/// `/owner log`: set Luro's global log level, useful for debugging.
#[derive(Debug)]
pub struct Log {
    /// The level to set
    pub level: LogLevel,
}

impl Log {
    /// Tells the author, alone, the level now set.
    pub fn interaction_command(&self) -> (r: Reply)
        ensures
            r@ == (ReplyView {
                content: Some("Luro's log level is now set to "@ + level_name(self.level) + "!"@),
                ephemeral: true,
                ..empty_reply()
            }),
    {
        let level = match self.level {
            LogLevel::Trace => "TRACE",
            LogLevel::Debug => "DEBUG",
            LogLevel::Info => "INFO",
            LogLevel::Warn => "WARN",
            LogLevel::Error => "ERROR",
            LogLevel::Off => "OFF",
        };
        let mut s = string_of("Luro's log level is now set to ");
        push_str(&mut s, level);
        push_str(&mut s, "!");
        Reply { content: Some(s), ephemeral: true, ..Reply::new() }
    }
}

} // verus!
