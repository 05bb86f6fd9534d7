//! The `/info` command: its subcommands, the buttons under its embed and
//! what each button does to the embed.
use vstd::prelude::*;
use crate::info::{
    guild_information, guild_information_spec, info_button_guild_permissions, luro_information,
    luro_information_spec, member_permissions, permissions_spec, requested_by, sync, sync_spec, timestamps,
    timestamps_spec, user_information, user_information_spec, user_valid, LuroRecords, UserInfo,
};
use crate::response::{
    empty_embed, empty_reply, row_view, Button, ButtonStyle, ButtonView, EmbedData, EmbedFieldView, EmbedView, Reply,
    ReplyView,
};
use crate::moderation::RoleRank;
use crate::roles::{sort_roles, sort_spec};
use crate::response::opt_view;
use crate::text::{dec_nat, push_dec_u64, push_str, string_of, str_eq};

verus! {

/// One message the database holds of a user.
#[derive(Debug)]
pub struct RecentMessage {
    pub guild_id: Option<u64>,
    pub channel_id: u64,
    pub id: u64,
    pub content: String,
}

/// The link to a message: under its guild, or under `@me` for a direct
/// message.
pub open spec fn message_url(m: RecentMessage) -> Seq<char> {
    "https://discord.com/channels/"@ + match m.guild_id {
        Some(g) => dec_nat(g as nat),
        None => "@me"@,
    } + "/"@ + dec_nat(m.channel_id as nat) + "/"@ + dec_nat(m.id as nat)
}

/// One field per message that has content: its link and its content.
pub open spec fn message_fields(msgs: Seq<RecentMessage>) -> Seq<EmbedFieldView>
    decreases msgs.len(),
{
    if msgs.len() == 0 {
        seq![]
    } else if msgs.last().content@.len() == 0 {
        message_fields(msgs.drop_last())
    } else {
        message_fields(msgs.drop_last()).push(
            EmbedFieldView { name: message_url(msgs.last()), value: msgs.last().content@, inline: false },
        )
    }
}

fn message_url_string(m: &RecentMessage) -> (s: String)
    ensures
        s@ == message_url(*m),
{
    let mut s = string_of("https://discord.com/channels/");
    match m.guild_id {
        Some(g) => push_dec_u64(&mut s, g),
        None => push_str(&mut s, "@me"),
    }
    push_str(&mut s, "/");
    push_dec_u64(&mut s, m.channel_id);
    push_str(&mut s, "/");
    push_dec_u64(&mut s, m.id);
    assert(s@ =~= message_url(*m));
    s
}

/// The embed of a user's recent messages.
pub open spec fn recent_messages_embed(author: UserInfo, user: UserInfo, msgs: Seq<RecentMessage>, accent: u32) -> EmbedView {
    EmbedView {
        fields: message_fields(msgs),
        colour: Some(accent),
        author_name: Some("Recent Messages sent by "@ + user.name@ + " | "@ + dec_nat(user.user_id as nat)),
        author_icon_url: Some(user.avatar_url@),
        footer_text: Some(requested_by(author)),
        footer_icon_url: Some(author.avatar_url@),
        ..empty_embed()
    }
}

/// The messages of `user` that have content, each under its link, shown to
/// the asker alone.
pub fn info_recent_messages(author: &UserInfo, user: &UserInfo, msgs: &Vec<RecentMessage>, accent: u32) -> (r: Reply)
    ensures
        r@ == (ReplyView {
            embeds: seq![recent_messages_embed(*author, *user, msgs@, accent)],
            ephemeral: true,
            ..empty_reply()
        }),
{
    let mut e = EmbedData::new();
    let n = msgs.len();
    for i in 0..n
        invariant
            n == msgs@.len(),
            e@ == (EmbedView { fields: message_fields(msgs@.take(i as int)), ..empty_embed() }),
    {
        assert(msgs@.take(i + 1).drop_last() =~= msgs@.take(i as int));
        if msgs[i].content.as_str().unicode_len() != 0 {
            let url = message_url_string(&msgs[i]);
            e.add_field(url.as_str(), msgs[i].content.as_str(), false);
        }
    }
    assert(msgs@.take(n as int) =~= msgs@);
    e.colour = Some(accent);
    let mut name = string_of("Recent Messages sent by ");
    push_str(&mut name, user.name.as_str());
    push_str(&mut name, " | ");
    push_dec_u64(&mut name, user.user_id);
    e.author_name = Some(name);
    e.author_icon_url = Some(user.avatar_url.clone());
    let mut footer = string_of("Information requested by ");
    push_str(&mut footer, author.name.as_str());
    e.footer_text = Some(footer);
    e.footer_icon_url = Some(author.avatar_url.clone());
    let mut r = Reply::new();
    r.embeds.push(e);
    r.ephemeral = true;
    proof {
        reveal_strlit("Information requested by ");
    }
    assert(r@.embeds =~= seq![recent_messages_embed(*author, *user, msgs@, accent)]);
    r
}

/// A secondary button.
pub open spec fn grey(id: Seq<char>, label: Seq<char>) -> ButtonView {
    ButtonView { custom_id: id, label, style: ButtonStyle::Secondary }
}

/// The button rows under an info embed: with the buttons shown, a row of
/// messages, timestamps, user and bot information; then, in a guild, member
/// information and permissions, always followed by clear and sync.
pub open spec fn buttons_spec(in_guild: bool, show_buttons: bool) -> Seq<Seq<ButtonView>> {
    let last = (if in_guild && show_buttons {
        seq![
            grey("info-button-guild"@, "Member Information"@),
            grey("info-button-guild-permissions"@, "Member Permissions"@),
        ]
    } else {
        seq![]
    }) + seq![
        ButtonView { custom_id: "info-button-clear"@, label: "Clear Embed"@, style: ButtonStyle::Danger },
        ButtonView { custom_id: "info-button-sync"@, label: "Sync"@, style: ButtonStyle::Primary },
    ];
    if show_buttons {
        seq![
            seq![
                grey("info-button-messages"@, "Messages by user"@),
                grey("info-button-timestamps"@, "User Timestamps"@),
                grey("info-button-user"@, "User Information"@),
                grey("info-button-luro"@, "Luro Information"@),
            ],
            last,
        ]
    } else {
        seq![last]
    }
}

/// The views of rows of buttons.
pub open spec fn rows_view(rows: Seq<Vec<Button>>) -> Seq<Seq<ButtonView>> {
    rows.map_values(|r: Vec<Button>| row_view(r@))
}

/// The button rows under an info embed.
pub fn buttons(in_guild: bool, show_buttons: bool) -> (rows: Vec<Vec<Button>>)
    ensures
        rows_view(rows@) == buttons_spec(in_guild, show_buttons),
{
    let mut rows: Vec<Vec<Button>> = Vec::new();
    if show_buttons {
        let mut first: Vec<Button> = Vec::new();
        first.push(Button::new("info-button-messages", "Messages by user", ButtonStyle::Secondary));
        first.push(Button::new("info-button-timestamps", "User Timestamps", ButtonStyle::Secondary));
        first.push(Button::new("info-button-user", "User Information", ButtonStyle::Secondary));
        first.push(Button::new("info-button-luro", "Luro Information", ButtonStyle::Secondary));
        assert(row_view(first@) =~= buttons_spec(in_guild, show_buttons)[0]);
        rows.push(first);
    }
    let mut last: Vec<Button> = Vec::new();
    if in_guild && show_buttons {
        last.push(Button::new("info-button-guild", "Member Information", ButtonStyle::Secondary));
        last.push(Button::new("info-button-guild-permissions", "Member Permissions", ButtonStyle::Secondary));
    }
    last.push(Button::new("info-button-clear", "Clear Embed", ButtonStyle::Danger));
    last.push(Button::new("info-button-sync", "Sync", ButtonStyle::Primary));
    let ghost lastv = row_view(last@);
    rows.push(last);
    proof {
        let spec = buttons_spec(in_guild, show_buttons);
        assert(lastv =~= spec.last());
        assert(rows_view(rows@) =~= spec);
    }
    rows
}

} // verus!

verus! {

/// `/info guild`: information about a guild.
#[derive(Debug)]
pub struct Guild {
    /// Get the details of a different guild
    pub guild: Option<String>,
    /// Set this if you want a copy of your data (GUILD OWNER ONLY).
    pub gdpr_export: Option<bool>,
    /// Set to true if you want to get the data from the API instead of the database
    pub refresh: Option<bool>,
}

/// `/info user`: information about a user, by default whoever asks.
#[derive(Debug)]
pub struct InfoUser {
    /// The user to get, by ID
    pub user: Option<u64>,
}

/// `/info role`: where a role stands among the guild's roles.
#[derive(Debug)]
pub struct InfoRole {
    /// The role to get, by ID
    pub role: u64,
}

/// `/info`: information about neat things.
#[derive(Debug)]
pub enum Info {
    User(InfoUser),
    Role(InfoRole),
    Guild(Guild),
    Message,
    Database,
}

impl Info {
    /// Whose information the buttons show: the user asked about with
    /// `/info user`, else whoever started the command (if known).
    pub fn subject(&self, original_author: Option<u64>) -> (r: Option<u64>)
        ensures
            r == match self {
                Info::User(InfoUser { user: Some(u) }) => Some(*u),
                _ => original_author,
            },
    {
        match self {
            Info::User(InfoUser { user: Some(u) }) => Some(*u),
            _ => original_author,
        }
    }
}

/// The buttons of an info embed.
#[derive(PartialEq, Eq, Structural, Clone, Copy, Debug)]
pub enum InfoButton {
    GuildPermissions,
    Timestamps,
    Messages,
    Luro,
    User,
    Guild,
    Clear,
    Sync,
    Unknown,
}

/// The button a custom ID names.
pub open spec fn info_button_spec(name: Seq<char>) -> InfoButton {
    if name == "info-button-guild-permissions"@ {
        InfoButton::GuildPermissions
    } else if name == "info-button-timestamps"@ {
        InfoButton::Timestamps
    } else if name == "info-button-messages"@ {
        InfoButton::Messages
    } else if name == "info-button-luro"@ {
        InfoButton::Luro
    } else if name == "info-button-user"@ {
        InfoButton::User
    } else if name == "info-button-guild"@ {
        InfoButton::Guild
    } else if name == "info-button-clear"@ {
        InfoButton::Clear
    } else if name == "info-button-sync"@ {
        InfoButton::Sync
    } else {
        InfoButton::Unknown
    }
}

/// The button a custom ID names.
pub fn info_button(name: &str) -> (b: InfoButton)
    ensures
        b == info_button_spec(name@),
{
    if str_eq(name, "info-button-guild-permissions") {
        InfoButton::GuildPermissions
    } else if str_eq(name, "info-button-timestamps") {
        InfoButton::Timestamps
    } else if str_eq(name, "info-button-messages") {
        InfoButton::Messages
    } else if str_eq(name, "info-button-luro") {
        InfoButton::Luro
    } else if str_eq(name, "info-button-user") {
        InfoButton::User
    } else if str_eq(name, "info-button-guild") {
        InfoButton::Guild
    } else if str_eq(name, "info-button-clear") {
        InfoButton::Clear
    } else if str_eq(name, "info-button-sync") {
        InfoButton::Sync
    } else {
        InfoButton::Unknown
    }
}

/// Why a button of an info embed could not be answered.
#[derive(PartialEq, Eq, Structural, Clone, Copy, Debug)]
pub enum InfoError {
    /// The message holds no embed.
    NoEmbed,
    /// The member information was asked of someone who is no member.
    NoMember,
    /// The button is none of the info buttons.
    UnknownCommand,
}

/// What a button press works with: who pressed, whose information is shown,
/// what the database gave for them, their recent messages, whether the
/// press came from a guild, and the bot's accent colour.
#[derive(Debug)]
pub struct InfoContext {
    pub author: UserInfo,
    pub user: UserInfo,
    pub records: LuroRecords,
    pub messages: Vec<RecentMessage>,
    pub in_guild: bool,
    pub accent: u32,
}

/// The message updated with the embed and the buttons.
pub open spec fn updated(e: EmbedView, in_guild: bool) -> ReplyView {
    ReplyView { embeds: seq![e], components: buttons_spec(in_guild, true), update: true, ..empty_reply() }
}

/// What a button press answers: the embed with the button's section added,
/// refreshed or cleared; the recent messages; or an error.
pub open spec fn info_component_spec(name: Seq<char>, c: InfoContext, embed: Option<EmbedView>) -> Result<ReplyView, InfoError> {
    match embed {
        None => Err(InfoError::NoEmbed),
        Some(e) => match info_button_spec(name) {
            InfoButton::GuildPermissions => if member_permissions(c.user) is Some {
                Ok(updated(permissions_spec(c.author, c.user, e), c.in_guild))
            } else {
                Ok(ReplyView { content: Some("Could not calculate permissions! Sorry!"@), ephemeral: true, ..empty_reply() })
            },
            InfoButton::Timestamps => Ok(updated(timestamps_spec(c.author, c.user, e), c.in_guild)),
            InfoButton::Messages => Ok(ReplyView {
                embeds: seq![recent_messages_embed(c.author, c.user, c.messages@, c.accent)],
                ephemeral: true,
                ..empty_reply()
            }),
            InfoButton::Luro => Ok(updated(luro_information_spec(c.author, c.user, c.records, e), c.in_guild)),
            InfoButton::User => Ok(updated(user_information_spec(c.author, c.user, e), c.in_guild)),
            InfoButton::Guild => match c.user.member {
                Some(m) => Ok(updated(guild_information_spec(c.author, m, e), c.in_guild)),
                None => Err(InfoError::NoMember),
            },
            InfoButton::Clear => Ok(updated(EmbedView { fields: seq![], ..e }, c.in_guild)),
            InfoButton::Sync => Ok(updated(sync_spec(c.author, c.user, c.records, e), c.in_guild)),
            InfoButton::Unknown => Err(InfoError::UnknownCommand),
        },
    }
}

fn update_reply(e: EmbedData, in_guild: bool) -> (r: Reply)
    ensures
        r@ == updated(e@, in_guild),
{
    let mut r = Reply::new();
    let ghost ev = e@;
    r.embeds.push(e);
    r.components = buttons(in_guild, true);
    r.update = true;
    assert(r@.embeds =~= seq![ev]);
    r
}

/// Answers a press of the button `name` under the message's embed.
pub fn info_component(name: &str, c: &InfoContext, embed: Option<EmbedData>) -> (r: Result<Reply, InfoError>)
    requires
        user_valid(c.user),
    ensures
        match (r, info_component_spec(name@, *c, match embed { Some(e) => Some(e@), None => None })) {
            (Ok(a), Ok(b)) => a@ == b,
            (Err(a), Err(b)) => a == b,
            _ => false,
        },
{
    let mut e = match embed {
        Some(e) => e,
        None => return Err(InfoError::NoEmbed),
    };
    match info_button(name) {
        InfoButton::GuildPermissions => {
            if info_button_guild_permissions(&c.author, &c.user, &mut e) {
                Ok(update_reply(e, c.in_guild))
            } else {
                Ok(Reply { content: Some(string_of("Could not calculate permissions! Sorry!")), ephemeral: true, ..Reply::new() })
            }
        },
        InfoButton::Timestamps => {
            timestamps(&c.author, &c.user, &mut e);
            Ok(update_reply(e, c.in_guild))
        },
        InfoButton::Messages => Ok(info_recent_messages(&c.author, &c.user, &c.messages, c.accent)),
        InfoButton::Luro => {
            luro_information(&c.author, &c.user, &c.records, &mut e);
            Ok(update_reply(e, c.in_guild))
        },
        InfoButton::User => {
            user_information(&c.author, &c.user, &mut e);
            Ok(update_reply(e, c.in_guild))
        },
        InfoButton::Guild => match &c.user.member {
            Some(m) => {
                guild_information(&c.author, m, &mut e);
                Ok(update_reply(e, c.in_guild))
            },
            None => Err(InfoError::NoMember),
        },
        InfoButton::Clear => {
            e.fields = Vec::new();
            proof {
                assert(e@.fields =~= seq![]);
            }
            Ok(update_reply(e, c.in_guild))
        },
        InfoButton::Sync => {
            sync(&c.author, &c.user, &c.records, &mut e);
            Ok(update_reply(e, c.in_guild))
        },
        InfoButton::Unknown => Err(InfoError::UnknownCommand),
    }
}

} // verus!

verus! {

/// Where the guild asked about is found.
#[derive(PartialEq, Eq, Structural, Clone, Copy, Debug)]
pub enum GuildLookup {
    /// The guild with this ID.
    Requested(u64),
    /// The guild the command was used in.
    Current,
    /// No guild was named and the command was not used in one.
    NotGuild,
    /// The guild named is no number.
    BadId,
}

/// What a guild's page shows of it.
#[derive(Debug)]
pub struct GuildSummary {
    pub name: String,
    pub owner_id: u64,
    /// The AFK timeout, in seconds.
    pub afk_timeout: u64,
}

/// The answer to `/info guild`, and the name of the data export to attach
/// (for the owner asking for it).
#[derive(Debug)]
pub struct GuildReply {
    pub reply: Reply,
    pub export_file: Option<String>,
}

/// The guild's page: its name as title, owner and AFK timeout, and the bot's
/// settings for it.
pub open spec fn guild_embed(base: EmbedView, g: GuildSummary) -> EmbedView {
    EmbedView {
        title: Some(g.name@),
        description: Some("- Owner: <@"@ + dec_nat(g.owner_id as nat) + ">\n- AFK Timeout: "@ + dec_nat(g.afk_timeout as nat)
            + " seconds\n"@),
        fields: base.fields.push(EmbedFieldView { name: "Luro Settings"@, value: "- Guild Name: "@ + g.name@ + "\n"@, inline: false }),
        ..base
    }
}

/// The warning to the owner when someone else asks for their guild's data.
pub open spec fn gdpr_warning(owner: u64, author: u64) -> Seq<char> {
    "Hey <@"@ + dec_nat(owner as nat) + ">! <@"@ + dec_nat(author as nat) + "> is being a cunt and trying to steal your guild data!"@
}

impl Guild {
    /// Where to find the guild: the one named by ID, else the current one.
    pub fn lookup(&self, in_guild: bool) -> (r: GuildLookup)
        requires
            match self.guild {
                Some(g) => crate::number::parse_u64_spec(g@) != Some(0int),
                None => true,
            },
        ensures
            r == match self.guild {
                Some(g) => match crate::number::parse_u64_spec(g@) {
                    Some(id) => GuildLookup::Requested(id as u64),
                    None => GuildLookup::BadId,
                },
                None => if in_guild { GuildLookup::Current } else { GuildLookup::NotGuild },
            },
    {
        match &self.guild {
            Some(g) => match crate::number::parse_u64(g.as_str()) {
                Some(id) => GuildLookup::Requested(id),
                None => GuildLookup::BadId,
            },
            None => if in_guild { GuildLookup::Current } else { GuildLookup::NotGuild },
        }
    }

    /// The guild's page; with an export asked for, the owner gets their
    /// data attached and anyone else is called out to the owner.
    pub fn reply(&self, g: &GuildSummary, author_id: u64, base: EmbedData) -> (r: GuildReply)
        ensures
            r.reply@ == (ReplyView {
                content: if self.gdpr_export == Some(true) && g.owner_id != author_id {
                    Some(gdpr_warning(g.owner_id, author_id))
                } else {
                    None
                },
                embeds: seq![guild_embed(base@, *g)],
                ..empty_reply()
            }),
            opt_view(r.export_file) == if self.gdpr_export == Some(true) && g.owner_id == author_id {
                Some("gdpr-export-"@ + dec_nat(author_id as nat) + ".txt"@)
            } else {
                None
            },
    {
        let mut e = base;
        let mut luro_guild = string_of("- Guild Name: ");
        push_str(&mut luro_guild, g.name.as_str());
        push_str(&mut luro_guild, "\n");
        let mut description = string_of("- Owner: <@");
        push_dec_u64(&mut description, g.owner_id);
        push_str(&mut description, ">\n- AFK Timeout: ");
        push_dec_u64(&mut description, g.afk_timeout);
        push_str(&mut description, " seconds\n");
        e.title = Some(g.name.clone());
        e.description = Some(description);
        e.add_field("Luro Settings", luro_guild.as_str(), false);
        let mut r = Reply::new();
        let mut export_file = None;
        if self.gdpr_export == Some(true) {
            if g.owner_id != author_id {
                let mut warning = string_of("Hey <@");
                push_dec_u64(&mut warning, g.owner_id);
                push_str(&mut warning, ">! <@");
                push_dec_u64(&mut warning, author_id);
                push_str(&mut warning, "> is being a cunt and trying to steal your guild data!");
                r.content = Some(warning);
            } else {
                let mut file = string_of("gdpr-export-");
                push_dec_u64(&mut file, author_id);
                push_str(&mut file, ".txt");
                export_file = Some(file);
            }
        }
        let ghost ev = e@;
        r.embeds.push(e);
        assert(ev == guild_embed(base@, *g));
        assert(r@.embeds =~= seq![guild_embed(base@, *g)]);
        GuildReply { reply: r, export_file }
    }
}

/// A role's line in the list: the role itself is marked with arrows.
pub open spec fn role_entry(id: u64, role: u64) -> Seq<char> {
    if id == role {
        "--> <@&"@ + dec_nat(id as nat) + "> <--\n"@
    } else {
        "<@&"@ + dec_nat(id as nat) + ">\n"@
    }
}

/// The lines of the roles, in the order given.
pub open spec fn role_entries(roles: Seq<RoleRank>, role: u64) -> Seq<char>
    decreases roles.len(),
{
    if roles.len() == 0 {
        seq![]
    } else {
        role_entries(roles.drop_last(), role) + role_entry(roles.last().id, role)
    }
}

/// The guild's roles from the top of the hierarchy down, the role asked
/// about marked.
pub open spec fn role_description(roles: Seq<RoleRank>, role: u64) -> Seq<char> {
    role_entries(sort_spec(roles).reverse(), role)
}

impl InfoRole {
    /// The role's page: its name as title and the guild's roles from the top
    /// down, the role marked; a role that is not known is answered with
    /// "Role not found!", to the asker alone.
    pub fn run_command(&self, role_name: Option<String>, guild_roles: &Vec<RoleRank>, base: EmbedData) -> (r: Reply)
        ensures
            r@ == match role_name {
                None => ReplyView { content: Some("Role not found!"@), ephemeral: true, ..empty_reply() },
                Some(n) => ReplyView {
                    embeds: seq![EmbedView {
                        title: Some(n@),
                        description: Some(role_description(guild_roles@, self.role)),
                        ..base@
                    }],
                    ..empty_reply()
                },
            },
    {
        match role_name {
            None => Reply { content: Some(string_of("Role not found!")), ephemeral: true, ..Reply::new() },
            Some(n) => {
                let sorted = sort_roles(guild_roles);
                let mut description = String::new();
                let len = sorted.len();
                let ghost desc = sorted@.reverse();
                let mut k: usize = 0;
                while k < len
                    invariant
                        len == sorted@.len(),
                        desc == sorted@.reverse(),
                        k <= len,
                        description@ == role_entries(desc.take(k as int), self.role),
                    decreases len - k,
                {
                    assert(desc.take(k + 1).drop_last() =~= desc.take(k as int));
                    let id = sorted[len - 1 - k].id;
                    assert(desc[k as int] == sorted@[len - 1 - k]);
                    if id == self.role {
                        push_str(&mut description, "--> <@&");
                        push_dec_u64(&mut description, id);
                        push_str(&mut description, "> <--\n");
                    } else {
                        push_str(&mut description, "<@&");
                        push_dec_u64(&mut description, id);
                        push_str(&mut description, ">\n");
                    }
                    k = k + 1;
                }
                assert(desc.take(len as int) =~= desc);
                let mut e = base;
                e.title = Some(n);
                e.description = Some(description);
                let mut r = Reply::new();
                let ghost ev = e@;
                r.embeds.push(e);
                assert(r@.embeds =~= seq![ev]);
                r
            },
        }
    }
}

} // verus!
