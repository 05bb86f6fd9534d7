//! `/info`: information about users, members and guilds, shown in an embed
//! whose buttons add, refresh and clear sections.
use twilight_model::guild::{MemberFlags, Permissions};
use twilight_model::id::{marker::UserMarker, Id};
use twilight_model::user::UserFlags;
use twilight_util::snowflake::Snowflake;
use vstd::prelude::*;
use crate::about::ticked;
use crate::response::{opt_view, EmbedData, EmbedField, EmbedFieldView, EmbedView};
use crate::text::{
    dec_int, dec_nat, has_substring, hex_nat, join_spec, push_dec_i64, push_dec_u64, push_hex_u64, push_str,
    sort_names_spec, sort_strings, string_of, strings_view, join_strings, contains_str,
};

verus! {

/// The names of the user flags set in `bits`, in the order the flags are
/// declared.
pub uninterp spec fn user_flag_names(bits: u64) -> Seq<Seq<char>>;

/// The names of the member flags set in `bits`, in the order the flags are
/// declared.
pub uninterp spec fn member_flag_names(bits: u64) -> Seq<Seq<char>>;

/// The names of the permissions set in `bits`, in the order the flags are
/// declared.
pub uninterp spec fn permission_names(bits: u64) -> Seq<Seq<char>>;

/// `UserFlags::iter_names` of the flags in `bits`: the names of the set
/// flags.
#[verifier::external_body]
fn user_flags_named(bits: u64) -> (r: Vec<String>)
    ensures
        strings_view(r@) == user_flag_names(bits),
{
    UserFlags::from_bits_truncate(bits).iter_names().map(|(name, _)| name.to_string()).collect()
}

/// `MemberFlags::iter_names` of the flags in `bits`: the names of the set
/// flags.
#[verifier::external_body]
fn member_flags_named(bits: u64) -> (r: Vec<String>)
    ensures
        strings_view(r@) == member_flag_names(bits),
{
    MemberFlags::from_bits_truncate(bits).iter_names().map(|(name, _)| name.to_string()).collect()
}

/// `Permissions::iter_names` of the permissions in `bits`: the names of the
/// set permissions.
#[verifier::external_body]
fn permissions_named(bits: u64) -> (r: Vec<String>)
    ensures
        strings_view(r@) == permission_names(bits),
{
    Permissions::from_bits_truncate(bits).iter_names().map(|(name, _)| name.to_string()).collect()
}

/// `Snowflake::timestamp` of a user ID: the milliseconds since the Unix
/// epoch at which it was made, its bits above the 22nd plus Discord's epoch.
#[verifier::external_body]
fn snowflake_timestamp(id: u64) -> (r: i64)
    requires
        id != 0,
    ensures
        r == id / 4194304 + 1420070400000,
{
    Id::<UserMarker>::new(id).timestamp()
}

/// What the database holds of a member in a guild.
#[derive(Debug)]
pub struct MemberData {
    /// When the member left, in seconds since the Unix epoch.
    pub left_at: Option<i64>,
    pub guild_owner: bool,
    /// The member's role IDs, sorted.
    pub sorted_roles: Vec<u64>,
    /// How many roles the member has.
    pub role_count: usize,
    /// The colour of the member's highest coloured role, and that role.
    pub highest_role_colour: Option<(u32, u64)>,
    /// The member's guild-level permissions.
    pub permissions: u64,
}

/// A member of a guild.
#[derive(Debug)]
pub struct MemberInfo {
    /// When the member joined, in seconds since the Unix epoch.
    pub joined_at: i64,
    pub boosting_since: Option<i64>,
    pub nickname: Option<String>,
    pub deafened: bool,
    pub muted: bool,
    pub pending: bool,
    pub flags: u64,
    pub data: Option<MemberData>,
}

/// What the bot's database holds of a user.
#[derive(Debug)]
pub struct UserData {
    /// How the user is marked in the database.
    pub permissions: String,
    pub gender: Option<String>,
    pub sexuality: Option<String>,
}

/// A user, as far as `/info` shows it.
#[derive(Debug)]
pub struct UserInfo {
    pub user_id: u64,
    pub name: String,
    pub avatar_url: String,
    pub banner_url: Option<String>,
    pub accent_colour: Option<u32>,
    pub email: Option<String>,
    pub locale: Option<String>,
    pub mfa_enabled: Option<bool>,
    pub system: Option<bool>,
    pub verified: Option<bool>,
    pub bot: bool,
    pub flags: Option<u64>,
    pub public_flags: Option<u64>,
    pub member: Option<MemberInfo>,
    pub data: Option<UserData>,
}

/// A user ID is never 0.
pub open spec fn user_valid(u: UserInfo) -> bool {
    u.user_id != 0
}

/// When the account was made, in seconds.
pub open spec fn created_secs(id: u64) -> int {
    (id / 4194304 + 1420070400000) / 1000
}

/// A timestamp line: `label<t:s> - <t:s:R>` and a newline.
pub open spec fn time_line(label: Seq<char>, secs: int) -> Seq<char> {
    label + "<t:"@ + dec_int(secs) + "> - <t:"@ + dec_int(secs) + ":R>\n"@
}

fn push_time_line(s: &mut String, label: &str, secs: i64)
    ensures
        final(s)@ == old(s)@ + time_line(label@, secs as int),
{
    push_str(s, label);
    push_str(s, "<t:");
    push_dec_i64(s, secs);
    push_str(s, "> - <t:");
    push_dec_i64(s, secs);
    push_str(s, ":R>\n");
    assert(s@ =~= old(s)@ + time_line(label@, secs as int));
}

/// The timestamps of a user: when the account was made and, for a member,
/// when they joined, boosted and left.
pub open spec fn timestamps_text(user: UserInfo) -> Seq<char> {
    time_line("- Joined discord on "@, created_secs(user.user_id)) + match user.member {
        Some(m) => time_line("- Joined this server at "@, m.joined_at as int)
            + match m.boosting_since { Some(b) => time_line("- Boosted this server since "@, b as int), None => seq![] }
            + match m.data {
                Some(d) => match d.left_at { Some(l) => time_line("- Left this server at "@, l as int), None => seq![] },
                None => seq![],
            },
        None => seq![],
    }
}

/// The timestamps text of a user.
pub fn timestamps_string(user: &UserInfo) -> (s: String)
    requires
        user_valid(*user),
    ensures
        s@ == timestamps_text(*user),
{
    let ms = snowflake_timestamp(user.user_id);
    let secs = (ms as u64) / 1000;
    let mut s = String::new();
    push_time_line(&mut s, "- Joined discord on ", secs as i64);
    match &user.member {
        Some(m) => {
            push_time_line(&mut s, "- Joined this server at ", m.joined_at);
            match m.boosting_since {
                Some(b) => push_time_line(&mut s, "- Boosted this server since ", b),
                None => {},
            }
            match &m.data {
                Some(d) => match d.left_at {
                    Some(l) => push_time_line(&mut s, "- Left this server at ", l),
                    None => {},
                },
                None => {},
            }
        },
        None => {},
    }
    assert(s@ =~= timestamps_text(*user));
    s
}

/// The sorted names joined with ` | `.
pub open spec fn names_text(names: Seq<Seq<char>>) -> Seq<char> {
    join_spec(sort_names_spec(names), " | "@)
}

fn names_string(names: Vec<String>) -> (s: String)
    ensures
        s@ == names_text(strings_view(names@)),
{
    let sorted = sort_strings(names);
    join_strings(&sorted, " | ")
}

/// The permissions in a code block.
pub open spec fn permissions_text(bits: u64) -> Seq<char> {
    "```\n"@ + names_text(permission_names(bits)) + "```"@
}

/// The permissions text.
pub fn permissions_string(bits: u64) -> (s: String)
    ensures
        s@ == permissions_text(bits),
{
    let mut s = string_of("```\n");
    push_str(&mut s, names_string(permissions_named(bits)).as_str());
    push_str(&mut s, "```");
    s
}

/// A flag section of the user information: a warning when the flags are
/// exactly the one for unusual amounts of DMs, then the flags' value and
/// names.
pub open spec fn flags_section(label: Seq<char>, bits: u64) -> Seq<char> {
    (if bits == 1048576 { "**USER IS MARKED FOR UNUSUAL AMOUNTS OF DMS**"@ } else { seq![] })
        + "\n- "@ + label + " (`"@ + dec_nat(bits as nat) + "`): \n```\n"@ + names_text(user_flag_names(bits)) + "```"@
}

fn push_flags_section(s: &mut String, label: &str, bits: u64)
    ensures
        final(s)@ == old(s)@ + flags_section(label@, bits),
{
    if bits == 1048576 {
        push_str(s, "**USER IS MARKED FOR UNUSUAL AMOUNTS OF DMS**");
    }
    push_str(s, "\n- ");
    push_str(s, label);
    push_str(s, " (`");
    push_dec_u64(s, bits);
    push_str(s, "`): \n```\n");
    push_str(s, names_string(user_flags_named(bits)).as_str());
    push_str(s, "```");
    assert(s@ =~= old(s)@ + flags_section(label@, bits));
}

/// The colour that stands for a user: the accent colour, else the colour of
/// the member's highest coloured role.
pub open spec fn user_colour(user: UserInfo) -> Option<u32> {
    match user.accent_colour {
        Some(a) => Some(a),
        None => match user.member {
            Some(m) => match m.data {
                Some(d) => match d.highest_role_colour { Some((c, _)) => Some(c), None => None },
                None => None,
            },
            None => None,
        },
    }
}

/// A line shown when a setting holds.
pub open spec fn flag_line(shown: bool, text: Seq<char>) -> Seq<char> {
    if shown { text } else { seq![] }
}

/// A line that shows an optional value in backticks.
pub open spec fn value_line(label: Seq<char>, value: Option<String>) -> Seq<char> {
    match value {
        Some(v) => label + ticked(v@),
        None => seq![],
    }
}

/// The user information text: flags, accent colour, e-mail, locale and the
/// account's settings.
pub open spec fn user_text(user: UserInfo) -> Seq<char> {
    (match user.flags { Some(f) => if f != 0 { flags_section("User Flags"@, f) } else { seq![] }, None => seq![] })
        + (match user.public_flags { Some(f) => if f != 0 { flags_section("Public Flags"@, f) } else { seq![] }, None => seq![] })
        + (match user.accent_colour {
            Some(a) => "\n- Accent Colour: "@ + ticked(hex_nat(a as nat)),
            None => match user.member {
                Some(m) => match m.data {
                    Some(d) => match d.highest_role_colour {
                        Some((c, r)) => "\n- Accent Colour: "@ + ticked(hex_nat(c as nat)) + " (<@&"@ + dec_nat(r as nat) + ">)"@,
                        None => seq![],
                    },
                    None => seq![],
                },
                None => seq![],
            },
        })
        + value_line("\n- Email: "@, user.email)
        + value_line("\n- Locale: "@, user.locale)
        + flag_line(user.mfa_enabled == Some(true), "\n- MFA Enabled: `true`"@)
        + flag_line(user.system == Some(true), "\n- System Account: `true`"@)
        + flag_line(user.verified == Some(true), "\n- Verified Account: `true`"@)
        + flag_line(user.bot, "\n- Bot: `true`"@)
}

fn push_value_line(s: &mut String, label: &str, value: &Option<String>)
    ensures
        final(s)@ == old(s)@ + value_line(label@, *value),
{
    match value {
        Some(v) => {
            push_str(s, label);
            push_str(s, "`");
            push_str(s, v.as_str());
            push_str(s, "`");
        },
        None => {},
    }
    assert(s@ =~= old(s)@ + value_line(label@, *value));
}

fn push_colour_line(s: &mut String, user: &UserInfo)
    ensures
        final(s)@ == old(s)@ + match user.accent_colour {
            Some(a) => "\n- Accent Colour: "@ + ticked(hex_nat(a as nat)),
            None => match user.member {
                Some(m) => match m.data {
                    Some(d) => match d.highest_role_colour {
                        Some((c, r)) => "\n- Accent Colour: "@ + ticked(hex_nat(c as nat)) + " (<@&"@ + dec_nat(r as nat) + ">)"@,
                        None => seq![],
                    },
                    None => seq![],
                },
                None => seq![],
            },
        },
{
    match user.accent_colour {
        Some(a) => {
            push_str(s, "\n- Accent Colour: `");
            push_hex_u64(s, a as u64);
            push_str(s, "`");
        },
        None => match &user.member {
            Some(m) => match &m.data {
                Some(d) => match d.highest_role_colour {
                    Some((c, r)) => {
                        push_str(s, "\n- Accent Colour: `");
                        push_hex_u64(s, c as u64);
                        push_str(s, "` (<@&");
                        push_dec_u64(s, r);
                        push_str(s, ">)");
                    },
                    None => {},
                },
                None => {},
            },
            None => {},
        },
    }
    proof {
        reveal_strlit("\n- Accent Colour: `");
        reveal_strlit("\n- Accent Colour: ");
        reveal_strlit("` (<@&");
        reveal_strlit(" (<@&");
        reveal_strlit("`");
    }
    assert(s@ =~= old(s)@ + match user.accent_colour {
        Some(a) => "\n- Accent Colour: "@ + ticked(hex_nat(a as nat)),
        None => match user.member {
            Some(m) => match m.data {
                Some(d) => match d.highest_role_colour {
                    Some((c, r)) => "\n- Accent Colour: "@ + ticked(hex_nat(c as nat)) + " (<@&"@ + dec_nat(r as nat) + ">)"@,
                    None => seq![],
                },
                None => seq![],
            },
            None => seq![],
        },
    });
}

/// The user information text of a user.
pub fn user_string(user: &UserInfo) -> (s: String)
    ensures
        s@ == user_text(*user),
{
    let mut s = String::new();
    match user.flags {
        Some(f) => if f != 0 { push_flags_section(&mut s, "User Flags", f) },
        None => {},
    }
    match user.public_flags {
        Some(f) => if f != 0 { push_flags_section(&mut s, "Public Flags", f) },
        None => {},
    }
    push_colour_line(&mut s, user);
    push_value_line(&mut s, "\n- Email: ", &user.email);
    push_value_line(&mut s, "\n- Locale: ", &user.locale);
    if user.mfa_enabled == Some(true) {
        push_str(&mut s, "\n- MFA Enabled: `true`");
    }
    if user.system == Some(true) {
        push_str(&mut s, "\n- System Account: `true`");
    }
    if user.verified == Some(true) {
        push_str(&mut s, "\n- Verified Account: `true`");
    }
    if user.bot {
        push_str(&mut s, "\n- Bot: `true`");
    }
    assert(s@ =~= user_text(*user));
    s
}

} // verus!

verus! {

/// The member's roles as mentions separated by `, `.
pub open spec fn role_list(roles: Seq<u64>) -> Seq<char>
    decreases roles.len(),
{
    if roles.len() == 0 {
        seq![]
    } else if role_list(roles.drop_last()).len() == 0 {
        "<@&"@ + dec_nat(roles.last() as nat) + ">"@
    } else {
        role_list(roles.drop_last()) + ", <@&"@ + dec_nat(roles.last() as nat) + ">"@
    }
}

fn role_list_string(roles: &Vec<u64>) -> (s: String)
    ensures
        s@ == role_list(roles@),
{
    let mut s = String::new();
    let n = roles.len();
    for i in 0..n
        invariant
            n == roles@.len(),
            s@ == role_list(roles@.take(i as int)),
    {
        assert(roles@.take(i + 1).drop_last() =~= roles@.take(i as int));
        if s.as_str().unicode_len() == 0 {
            push_str(&mut s, "<@&");
        } else {
            push_str(&mut s, ", <@&");
        }
        push_dec_u64(&mut s, roles[i]);
        push_str(&mut s, ">");
        assert(s@ =~= role_list(roles@.take(i + 1)));
    }
    assert(roles@.take(n as int) =~= roles@);
    s
}

/// The member flags section: their value and sorted names, when any are
/// set. The value is in backticks in the refreshed view.
pub open spec fn member_flags_text(flags: u64, ticked_count: bool) -> Seq<char> {
    let names = member_flag_names(flags);
    if names.len() == 0 {
        seq![]
    } else {
        "\n- Member Flags ("@ + (if ticked_count { ticked(dec_nat(flags as nat)) } else { dec_nat(flags as nat) })
            + "): \n```\n"@ + names_text(names) + "```"@
    }
}

/// The ownership and roles section.
pub open spec fn member_data_text(data: Option<MemberData>) -> Seq<char> {
    match data {
        Some(d) => flag_line(d.guild_owner, "\n- Is the owner of this guild!"@)
            + (if role_list(d.sorted_roles@).len() == 0 {
                seq![]
            } else {
                "\n- Roles ("@ + dec_nat(d.role_count as nat) + "): "@ + role_list(d.sorted_roles@)
            }),
        None => seq![],
    }
}

/// The member information text. The flag count is in backticks in the
/// refreshed view (`ticked_count`) and bare in the first view.
pub open spec fn guild_text(m: MemberInfo, ticked_count: bool) -> Seq<char> {
    value_line("\n- Nickname: "@, m.nickname)
        + flag_line(m.deafened, "\n- Deafened: `true`"@)
        + flag_line(m.muted, "\n- Muted: `true`"@)
        + flag_line(m.pending, "\n- Pending: `true`"@)
        + member_flags_text(m.flags, ticked_count)
        + member_data_text(m.data)
}

fn push_member_flags(s: &mut String, flags: u64, ticked_count: bool)
    ensures
        final(s)@ == old(s)@ + member_flags_text(flags, ticked_count),
{
    let names = member_flags_named(flags);
    if names.len() != 0 {
        push_str(s, "\n- Member Flags (");
        if ticked_count {
            push_str(s, "`");
            push_dec_u64(s, flags);
            push_str(s, "`");
        } else {
            push_dec_u64(s, flags);
        }
        push_str(s, "): \n```\n");
        push_str(s, names_string(names).as_str());
        push_str(s, "```");
    }
    assert(s@ =~= old(s)@ + member_flags_text(flags, ticked_count));
}

fn push_member_data(s: &mut String, data: &Option<MemberData>)
    ensures
        final(s)@ == old(s)@ + member_data_text(*data),
{
    match data {
        Some(d) => {
            if d.guild_owner {
                push_str(s, "\n- Is the owner of this guild!");
            }
            let roles = role_list_string(&d.sorted_roles);
            if roles.as_str().unicode_len() != 0 {
                push_str(s, "\n- Roles (");
                push_dec_u64(s, d.role_count as u64);
                push_str(s, "): ");
                push_str(s, roles.as_str());
            }
        },
        None => {},
    }
    assert(s@ =~= old(s)@ + member_data_text(*data));
}

/// The member information text of a member.
pub fn guild_string(m: &MemberInfo, ticked_count: bool) -> (s: String)
    ensures
        s@ == guild_text(*m, ticked_count),
{
    let mut s = String::new();
    push_value_line(&mut s, "\n- Nickname: ", &m.nickname);
    if m.deafened {
        push_str(&mut s, "\n- Deafened: `true`");
    }
    if m.muted {
        push_str(&mut s, "\n- Muted: `true`");
    }
    if m.pending {
        push_str(&mut s, "\n- Pending: `true`");
    }
    push_member_flags(&mut s, m.flags, ticked_count);
    push_member_data(&mut s, &m.data);
    assert(s@ =~= guild_text(*m, ticked_count));
    s
}

/// The message counts the database keeps of a user.
#[derive(Clone, Copy, Debug)]
pub struct MessageCounts {
    pub total_messages: Option<i64>,
    pub total_words: Option<i64>,
    pub total_unique_words: Option<i64>,
    pub total_custom_messages: Option<i64>,
    pub total_message_creates: Option<i64>,
    pub total_message_cached: Option<i64>,
    pub total_message_deletes: Option<i64>,
    pub total_message_updates: Option<i64>,
    pub total_message_message: Option<i64>,
}

/// What the database gave for a user: how many character profiles, the
/// marriages (divorced, rejected), and the message counts; `None` where a
/// lookup failed.
#[derive(Debug)]
pub struct LuroRecords {
    pub characters: Option<usize>,
    pub marriages: Option<Vec<(bool, bool)>>,
    pub counts: Option<MessageCounts>,
}

/// The marriages that are neither divorced nor rejected.
pub open spec fn active_marriages(m: Seq<(bool, bool)>) -> nat
    decreases m.len(),
{
    if m.len() == 0 {
        0
    } else if !m.last().0 && !m.last().1 {
        active_marriages(m.drop_last()) + 1
    } else {
        active_marriages(m.drop_last())
    }
}

/// A count line, shown when the count is there and not zero.
pub open spec fn count_text(count: Option<i64>, before: Seq<char>, after: Seq<char>) -> Seq<char> {
    match count {
        Some(c) => if c != 0 { before + ticked(dec_int(c as int)) + after } else { seq![] },
        None => seq![],
    }
}

/// The message statistics, shown when the user has sent messages.
pub open spec fn counts_text(c: MessageCounts) -> Seq<char> {
    count_text(c.total_messages, "- Has sent "@, " messages!\n"@)
        + count_text(c.total_words, "  - "@, " words said!\n"@)
        + count_text(c.total_unique_words, "  - "@, " unique words said!\n"@)
        + count_text(c.total_custom_messages, "  - "@, " custom messages\n"@)
        + count_text(c.total_message_creates, "  - "@, " messages created\n"@)
        + count_text(c.total_message_cached, "  - "@, " messages cached\n"@)
        + count_text(c.total_message_deletes, "  - "@, " messages deleted\n"@)
        + count_text(c.total_message_updates, "  - "@, " messages updated\n"@)
        + count_text(c.total_message_message, "  - "@, " messages stored\n"@)
}

/// The character profiles line.
pub open spec fn characters_text(characters: Option<usize>) -> Seq<char> {
    match characters {
        Some(n) => if n != 0 { "- Has "@ + ticked(dec_nat(n as nat)) + " character profiles\n"@ } else { seq![] },
        None => seq![],
    }
}

/// The marriages line.
pub open spec fn marriages_text(marriages: Option<Vec<(bool, bool)>>) -> Seq<char> {
    match marriages {
        Some(m) => if active_marriages(m@) != 0 { "- Has "@ + ticked(dec_nat(active_marriages(m@))) + " marriages\n"@ } else { seq![] },
        None => seq![],
    }
}

/// How the database marks the user, and their gender and sexuality.
pub open spec fn user_data_text(data: Option<UserData>) -> Seq<char> {
    match data {
        Some(d) => "- Is marked as "@ + ticked(d.permissions@) + " in my database!\n"@ + match (d.gender, d.sexuality) {
            (Some(g), Some(x)) => "- Has a sexuality of "@ + ticked(x@) + " and identifies as "@ + ticked(g@) + "\n"@,
            (Some(g), None) => "- Identifies as "@ + ticked(g@) + "\n"@,
            (None, Some(x)) => "- Has a sexuality of "@ + ticked(x@) + "\n"@,
            (None, None) => seq![],
        },
        None => seq![],
    }
}

/// The message statistics, when the user has sent messages.
pub open spec fn messages_text(counts: Option<MessageCounts>) -> Seq<char> {
    match counts {
        Some(c) => if c.total_messages matches Some(t) && t != 0 { counts_text(c) } else { seq![] },
        None => seq![],
    }
}

/// What the bot knows of a user: character profiles, marriages, how the
/// database marks them, and their messages.
pub open spec fn luro_text(user: UserInfo, records: LuroRecords) -> Seq<char> {
    characters_text(records.characters) + marriages_text(records.marriages) + user_data_text(user.data)
        + messages_text(records.counts)
}

fn push_count_text(s: &mut String, count: Option<i64>, before: &str, after: &str)
    ensures
        final(s)@ == old(s)@ + count_text(count, before@, after@),
{
    match count {
        Some(c) => if c != 0 {
            push_str(s, before);
            push_str(s, "`");
            push_dec_i64(s, c);
            push_str(s, "`");
            push_str(s, after);
        },
        None => {},
    }
    assert(s@ =~= old(s)@ + count_text(count, before@, after@));
}

fn push_counts_text(s: &mut String, c: &MessageCounts)
    ensures
        final(s)@ == old(s)@ + counts_text(*c),
{
    push_count_text(s, c.total_messages, "- Has sent ", " messages!\n");
    push_count_text(s, c.total_words, "  - ", " words said!\n");
    push_count_text(s, c.total_unique_words, "  - ", " unique words said!\n");
    push_count_text(s, c.total_custom_messages, "  - ", " custom messages\n");
    push_count_text(s, c.total_message_creates, "  - ", " messages created\n");
    push_count_text(s, c.total_message_cached, "  - ", " messages cached\n");
    push_count_text(s, c.total_message_deletes, "  - ", " messages deleted\n");
    push_count_text(s, c.total_message_updates, "  - ", " messages updated\n");
    push_count_text(s, c.total_message_message, "  - ", " messages stored\n");
    assert(s@ =~= old(s)@ + counts_text(*c));
}

fn push_ticked(s: &mut String, t: &str)
    ensures
        final(s)@ == old(s)@ + ticked(t@),
{
    push_str(s, "`");
    push_str(s, t);
    push_str(s, "`");
    assert(s@ =~= old(s)@ + ticked(t@));
}

fn push_user_data(s: &mut String, data: &Option<UserData>)
    ensures
        final(s)@ == old(s)@ + user_data_text(*data),
{
    match data {
        Some(d) => {
            push_str(s, "- Is marked as ");
            push_ticked(s, d.permissions.as_str());
            push_str(s, " in my database!\n");
            match (&d.gender, &d.sexuality) {
                (Some(g), Some(x)) => {
                    push_str(s, "- Has a sexuality of ");
                    push_ticked(s, x.as_str());
                    push_str(s, " and identifies as ");
                    push_ticked(s, g.as_str());
                    push_str(s, "\n");
                },
                (Some(g), None) => {
                    push_str(s, "- Identifies as ");
                    push_ticked(s, g.as_str());
                    push_str(s, "\n");
                },
                (None, Some(x)) => {
                    push_str(s, "- Has a sexuality of ");
                    push_ticked(s, x.as_str());
                    push_str(s, "\n");
                },
                (None, None) => {},
            }
        },
        None => {},
    }
    assert(s@ =~= old(s)@ + user_data_text(*data));
}

fn count_active(m: &Vec<(bool, bool)>) -> (n: u64)
    ensures
        n == active_marriages(m@),
{
    let mut n: u64 = 0;
    let len = m.len();
    for i in 0..len
        invariant
            len == m@.len(),
            n == active_marriages(m@.take(i as int)),
            n <= i,
    {
        assert(m@.take(i + 1).drop_last() =~= m@.take(i as int));
        let (divorced, rejected) = m[i];
        if !divorced && !rejected {
            n = n + 1;
        }
    }
    assert(m@.take(len as int) =~= m@);
    n
}

fn push_characters(s: &mut String, characters: Option<usize>)
    ensures
        final(s)@ == old(s)@ + characters_text(characters),
{
    match characters {
        Some(n) => if n != 0 {
            push_str(s, "- Has ");
            push_ticked(s, crate::text::dec_string(n as u64).as_str());
            push_str(s, " character profiles\n");
        },
        None => {},
    }
    assert(s@ =~= old(s)@ + characters_text(characters));
}

fn push_marriages(s: &mut String, marriages: &Option<Vec<(bool, bool)>>)
    ensures
        final(s)@ == old(s)@ + marriages_text(*marriages),
{
    match marriages {
        Some(m) => {
            let active = count_active(m);
            if active != 0 {
                push_str(s, "- Has ");
                push_ticked(s, crate::text::dec_string(active).as_str());
                push_str(s, " marriages\n");
            }
        },
        None => {},
    }
    assert(s@ =~= old(s)@ + marriages_text(*marriages));
}

fn push_messages(s: &mut String, counts: Option<MessageCounts>)
    ensures
        final(s)@ == old(s)@ + messages_text(counts),
{
    match counts {
        Some(c) => {
            let shown = match c.total_messages { Some(t) => t != 0, None => false };
            if shown {
                push_counts_text(s, &c);
            }
        },
        None => {},
    }
    assert(s@ =~= old(s)@ + messages_text(counts));
}

/// The text of what the bot knows of a user.
pub fn luro_string(user: &UserInfo, records: &LuroRecords) -> (s: String)
    ensures
        s@ == luro_text(*user, *records),
{
    let mut s = String::new();
    push_characters(&mut s, records.characters);
    push_marriages(&mut s, &records.marriages);
    push_user_data(&mut s, &user.data);
    push_messages(&mut s, records.counts);
    assert(s@ =~= luro_text(*user, *records));
    s
}

} // verus!

verus! {

/// Some field's name holds `part`.
pub open spec fn has_field(fields: Seq<EmbedFieldView>, part: Seq<char>) -> bool {
    exists|i: int| 0 <= i < fields.len() && has_substring(#[trigger] fields[i].name, part)
}

/// Whether some field's name holds `part`.
pub fn field_present(embed: &EmbedData, part: &str) -> (b: bool)
    ensures
        b == has_field(embed@.fields, part@),
{
    let n = embed.fields.len();
    for i in 0..n
        invariant
            n == embed.fields@.len(),
            forall|k: int| 0 <= k < i ==> !has_substring(#[trigger] embed@.fields[k].name, part@),
    {
        if contains_str(embed.fields[i].name.as_str(), part) {
            assert(has_substring(embed@.fields[i as int].name, part@));
            return true;
        }
    }
    false
}

/// The footer naming who asked.
pub open spec fn requested_by(author: UserInfo) -> Seq<char> {
    "Information requested by "@ + author.name@
}

fn set_footer(embed: &mut EmbedData, prefix: &str, author: &UserInfo, with_icon: bool)
    ensures
        final(embed)@ == (EmbedView {
            footer_text: Some(prefix@ + author.name@),
            footer_icon_url: if with_icon { Some(author.avatar_url@) } else { None },
            ..old(embed)@
        }),
{
    let mut text = string_of(prefix);
    push_str(&mut text, author.name.as_str());
    embed.footer_text = Some(text);
    embed.footer_icon_url = if with_icon { Some(author.avatar_url.clone()) } else { None };
}

/// Adds a field and the footer naming who asked.
pub open spec fn with_section(e: EmbedView, name: Seq<char>, value: Seq<char>, author: UserInfo) -> EmbedView {
    EmbedView {
        fields: e.fields.push(EmbedFieldView { name, value, inline: false }),
        footer_text: Some(requested_by(author)),
        footer_icon_url: Some(author.avatar_url@),
        ..e
    }
}

/// The timestamps section is added unless there is one.
pub open spec fn timestamps_spec(author: UserInfo, user: UserInfo, e: EmbedView) -> EmbedView {
    if has_field(e.fields, "Timestamps"@) { e } else { with_section(e, "Timestamps"@, timestamps_text(user), author) }
}

/// Adds the timestamps of `user`, unless the embed already shows them.
pub fn timestamps(author: &UserInfo, user: &UserInfo, embed: &mut EmbedData)
    requires
        user_valid(*user),
    ensures
        final(embed)@ == timestamps_spec(*author, *user, old(embed)@),
{
    if !field_present(embed, "Timestamps") {
        let timestamp = timestamps_string(user);
        embed.add_field("Timestamps", timestamp.as_str(), false);
        set_footer(embed, "Information requested by ", author, true);
    }
}

/// The luro section is added unless there is one, when it has something to
/// say.
pub open spec fn luro_information_spec(author: UserInfo, user: UserInfo, records: LuroRecords, e: EmbedView) -> EmbedView {
    if has_field(e.fields, "Luro Information"@) || luro_text(user, records).len() == 0 {
        e
    } else {
        with_section(e, "Luro Information"@, luro_text(user, records), author)
    }
}

/// Adds what the bot knows of `user`, unless the embed already shows it.
pub fn luro_information(author: &UserInfo, user: &UserInfo, records: &LuroRecords, embed: &mut EmbedData)
    ensures
        final(embed)@ == luro_information_spec(*author, *user, *records, old(embed)@),
{
    if !field_present(embed, "Luro Information") {
        let text = luro_string(user, records);
        if text.as_str().unicode_len() != 0 {
            embed.add_field("Luro Information", text.as_str(), false);
            set_footer(embed, "Information requested by ", author, true);
        }
    }
}

/// What the user information section says: its text, or that there is
/// nothing to report.
pub open spec fn user_field_value(user: UserInfo) -> Seq<char> {
    if user_text(user).len() == 0 { "- I don't have any user information to report!"@ } else { user_text(user) }
}

/// The banner becomes the image; the user information section, with the
/// user's colour, is added unless there is one.
pub open spec fn user_information_spec(author: UserInfo, user: UserInfo, e: EmbedView) -> EmbedView {
    let e1 = match user.banner_url { Some(b) => EmbedView { image_url: Some(b@), ..e }, None => e };
    if has_field(e1.fields, "User Information"@) {
        e1
    } else {
        let e2 = match user_colour(user) { Some(c) => EmbedView { colour: Some(c), ..e1 }, None => e1 };
        with_section(e2, "User Information"@, user_field_value(user), author)
    }
}

fn user_colour_of(user: &UserInfo) -> (c: Option<u32>)
    ensures
        c == user_colour(*user),
{
    match user.accent_colour {
        Some(a) => Some(a),
        None => match &user.member {
            Some(m) => match &m.data {
                Some(d) => match d.highest_role_colour { Some((c, _)) => Some(c), None => None },
                None => None,
            },
            None => None,
        },
    }
}

/// Adds the user information of `user`, unless the embed already shows it,
/// and shows the user's banner.
pub fn user_information(author: &UserInfo, user: &UserInfo, embed: &mut EmbedData)
    ensures
        final(embed)@ == user_information_spec(*author, *user, old(embed)@),
{
    match &user.banner_url {
        Some(b) => embed.image_url = Some(b.clone()),
        None => {},
    }
    if !field_present(embed, "User Information") {
        let text = user_string(user);
        match user_colour_of(user) {
            Some(c) => embed.colour = Some(c),
            None => {},
        }
        set_footer(embed, "Information requested by ", author, true);
        if text.as_str().unicode_len() == 0 {
            embed.add_field("User Information", "- I don't have any user information to report!", false);
        } else {
            embed.add_field("User Information", text.as_str(), false);
        }
    }
}

/// The member information section is added unless there is one, when it
/// has something to say.
pub open spec fn guild_information_spec(author: UserInfo, member: MemberInfo, e: EmbedView) -> EmbedView {
    if has_field(e.fields, "Guild Information"@) || guild_text(member, false).len() == 0 {
        e
    } else {
        with_section(e, "Guild Information"@, guild_text(member, false), author)
    }
}

/// Adds the member information, unless the embed already shows it.
pub fn guild_information(author: &UserInfo, member: &MemberInfo, embed: &mut EmbedData)
    ensures
        final(embed)@ == guild_information_spec(*author, *member, old(embed)@),
{
    if !field_present(embed, "Guild Information") {
        let text = guild_string(member, false);
        if text.as_str().unicode_len() != 0 {
            embed.add_field("Guild Information", text.as_str(), false);
            set_footer(embed, "Information requested by ", author, true);
        }
    }
}

/// The member's guild-level permissions, when the database has them.
pub open spec fn member_permissions(user: UserInfo) -> Option<u64> {
    match user.member {
        Some(m) => match m.data { Some(d) => Some(d.permissions), None => None },
        None => None,
    }
}

/// With the member's permissions known, their section is added unless
/// there is one (the footer without an icon); without them nothing
/// changes.
pub open spec fn permissions_spec(author: UserInfo, user: UserInfo, e: EmbedView) -> EmbedView {
    match member_permissions(user) {
        Some(p) => if has_field(e.fields, "Guild-Level Permissions"@) {
            e
        } else {
            EmbedView {
                fields: e.fields.push(EmbedFieldView { name: "Guild-Level Permissions"@, value: permissions_text(p), inline: false }),
                footer_text: Some(requested_by(author)),
                footer_icon_url: None,
                ..e
            }
        },
        None => e,
    }
}

/// Adds the member's guild-level permissions, unless shown already. Gives
/// `false` when they could not be calculated, for which the asker is told
/// so.
pub fn info_button_guild_permissions(author: &UserInfo, user: &UserInfo, embed: &mut EmbedData) -> (calculated: bool)
    ensures
        calculated == member_permissions(*user) is Some,
        final(embed)@ == permissions_spec(*author, *user, old(embed)@),
{
    let permissions = match &user.member {
        Some(m) => match &m.data { Some(d) => Some(d.permissions), None => None },
        None => None,
    };
    match permissions {
        Some(p) => {
            if !field_present(embed, "Guild-Level Permissions") {
                let text = permissions_string(p);
                embed.add_field("Guild-Level Permissions", text.as_str(), false);
                set_footer(embed, "Information requested by ", author, false);
            }
            true
        },
        None => false,
    }
}

} // verus!

verus! {

/// What a refresh makes of a field's value: each section whose name the
/// field's name holds is written anew, a later section over an earlier one.
/// The permissions and member sections are only written for a member whose
/// data is known.
pub open spec fn synced_value(name: Seq<char>, value: Seq<char>, user: UserInfo, records: LuroRecords) -> Seq<char> {
    let v1 = if has_substring(name, "Timestamps"@) { timestamps_text(user) } else { value };
    let v2 = match member_permissions(user) {
        Some(p) => if has_substring(name, "Guild-Level Permissions"@) { permissions_text(p) } else { v1 },
        None => v1,
    };
    let v3 = if has_substring(name, "Luro Information"@) { luro_text(user, records) } else { v2 };
    let v4 = if has_substring(name, "User Information"@) { user_field_value(user) } else { v3 };
    match user.member {
        Some(m) => if has_substring(name, "Guild Information"@) { guild_text(m, true) } else { v4 },
        None => v4,
    }
}

/// A field after a refresh: its name and layout stay.
pub open spec fn synced_field(f: EmbedFieldView, user: UserInfo, records: LuroRecords) -> EmbedFieldView {
    EmbedFieldView { value: synced_value(f.name, f.value, user, records), ..f }
}

/// A refresh: every shown section is written anew from the synced user, the
/// embed takes the user's colour and banner, and the footer says it was
/// synced.
pub open spec fn sync_spec(author: UserInfo, user: UserInfo, records: LuroRecords, e: EmbedView) -> EmbedView {
    EmbedView {
        fields: Seq::new(e.fields.len(), |i: int| synced_field(e.fields[i], user, records)),
        colour: match user_colour(user) { Some(c) => Some(c), None => e.colour },
        image_url: match user.banner_url { Some(b) => Some(b@), None => e.image_url },
        footer_text: Some("SYNCED | "@ + requested_by(author)),
        footer_icon_url: Some(author.avatar_url@),
        ..e
    }
}

fn user_field_string(user: &UserInfo) -> (s: String)
    ensures
        s@ == user_field_value(*user),
{
    let text = user_string(user);
    if text.as_str().unicode_len() == 0 {
        string_of("- I don't have any user information to report!")
    } else {
        text
    }
}

fn synced_value_string(
    name: &str,
    value: &str,
    user: &UserInfo,
    records: &LuroRecords,
    timestamp: &str,
    permissions: &Option<String>,
    luro: &str,
    user_info: &str,
    guild: &Option<String>,
) -> (s: String)
    requires
        timestamp@ == timestamps_text(*user),
        opt_view(*permissions) == match member_permissions(*user) {
            Some(p) => Some(permissions_text(p)),
            None => None::<Seq<char>>,
        },
        luro@ == luro_text(*user, *records),
        user_info@ == user_field_value(*user),
        opt_view(*guild) == match user.member {
            Some(m) => Some(guild_text(m, true)),
            None => None::<Seq<char>>,
        },
    ensures
        s@ == synced_value(name@, value@, *user, *records),
{
    let mut v = string_of(value);
    if contains_str(name, "Timestamps") {
        v = string_of(timestamp);
    }
    match permissions {
        Some(p) => if contains_str(name, "Guild-Level Permissions") {
            v = string_of(p.as_str());
        },
        None => {},
    }
    if contains_str(name, "Luro Information") {
        v = string_of(luro);
    }
    if contains_str(name, "User Information") {
        v = string_of(user_info);
    }
    match guild {
        Some(g) => if contains_str(name, "Guild Information") {
            v = string_of(g.as_str());
        },
        None => {},
    }
    v
}

/// Refreshes every shown section from the synced `user` and what the
/// database gave for them, and marks the footer as synced.
pub fn sync(author: &UserInfo, user: &UserInfo, records: &LuroRecords, embed: &mut EmbedData)
    requires
        user_valid(*user),
    ensures
        final(embed)@ == sync_spec(*author, *user, *records, old(embed)@),
{
    let timestamp = timestamps_string(user);
    let permissions = match &user.member {
        Some(m) => match &m.data { Some(d) => Some(permissions_string(d.permissions)), None => None },
        None => None,
    };
    let luro = luro_string(user, records);
    let user_info = user_field_string(user);
    let guild = match &user.member {
        Some(m) => Some(guild_string(m, true)),
        None => None,
    };
    let ghost e0 = embed@;
    let n = embed.fields.len();
    for i in 0..n
        invariant
            n == embed.fields@.len(),
            n == e0.fields.len(),
            embed@ == (EmbedView { fields: embed@.fields, ..e0 }),
            forall|k: int| 0 <= k < i ==> #[trigger] embed@.fields[k] == synced_field(e0.fields[k], *user, *records),
            forall|k: int| i <= k < n ==> #[trigger] embed@.fields[k] == e0.fields[k],
            timestamp@ == timestamps_text(*user),
            opt_view(permissions) == match member_permissions(*user) {
                Some(p) => Some(permissions_text(p)),
                None => None::<Seq<char>>,
            },
            luro@ == luro_text(*user, *records),
            user_info@ == user_field_value(*user),
            opt_view(guild) == match user.member {
                Some(m) => Some(guild_text(m, true)),
                None => None::<Seq<char>>,
            },
    {
        assert(embed@.fields[i as int] == e0.fields[i as int]);
        assert(embed.fields@[i as int]@ == e0.fields[i as int]);
        let value = synced_value_string(
            embed.fields[i].name.as_str(),
            embed.fields[i].value.as_str(),
            user,
            records,
            timestamp.as_str(),
            &permissions,
            luro.as_str(),
            user_info.as_str(),
            &guild,
        );
        let field = EmbedField { name: embed.fields[i].name.clone(), value, inline: embed.fields[i].inline };
        let ghost fv = field@;
        let ghost before = embed.fields@;
        let ghost pre = embed@;
        assert(fv == synced_field(e0.fields[i as int], *user, *records));
        embed.fields.set(i, field);
        assert(embed.fields@ == before.update(i as int, embed.fields@[i as int]));
        assert(embed.fields@[i as int]@ == fv);
        assert forall|k: int| 0 <= k < n && k != i implies #[trigger] embed@.fields[k] == pre.fields[k] by {
            assert(embed.fields@[k] == before[k]);
            assert(pre.fields[k] == before[k]@);
        }
    }
    match user_colour_of(user) {
        Some(c) => embed.colour = Some(c),
        None => {},
    }
    match &user.banner_url {
        Some(b) => embed.image_url = Some(b.clone()),
        None => {},
    }
    set_footer(embed, "SYNCED | Information requested by ", author, true);
    proof {
        reveal_strlit("SYNCED | Information requested by ");
        reveal_strlit("SYNCED | ");
        reveal_strlit("Information requested by ");
    }
    assert(embed@.fields =~= sync_spec(*author, *user, *records, e0).fields);
    assert(embed@.footer_text->0 =~= "SYNCED | "@ + requested_by(*author));
}

} // verus!

verus! {

proof fn lemma_pushed_field_present(fields: Seq<EmbedFieldView>, f: EmbedFieldView)
    ensures
        has_field(fields.push(f), f.name),
{
    assert(f.name.subrange(0, f.name.len() as int) =~= f.name);
    assert(crate::text::occurs_at(f.name, f.name, 0));
    assert(fields.push(f)[fields.len() as int] == f);
}

/// Pressing a section's button a second time changes nothing: each section
/// is shown at most once.
pub proof fn law_sections_added_once(author: UserInfo, user: UserInfo, records: LuroRecords, member: MemberInfo, e: EmbedView)
    ensures
        timestamps_spec(author, user, timestamps_spec(author, user, e)) == timestamps_spec(author, user, e),
        luro_information_spec(author, user, records, luro_information_spec(author, user, records, e))
            == luro_information_spec(author, user, records, e),
        user_information_spec(author, user, user_information_spec(author, user, e)) == user_information_spec(author, user, e),
        guild_information_spec(author, member, guild_information_spec(author, member, e))
            == guild_information_spec(author, member, e),
        permissions_spec(author, user, permissions_spec(author, user, e)) == permissions_spec(author, user, e),
{
    let ts = EmbedFieldView { name: "Timestamps"@, value: timestamps_text(user), inline: false };
    lemma_pushed_field_present(e.fields, ts);
    let lf = EmbedFieldView { name: "Luro Information"@, value: luro_text(user, records), inline: false };
    lemma_pushed_field_present(e.fields, lf);
    let uf = EmbedFieldView { name: "User Information"@, value: user_field_value(user), inline: false };
    lemma_pushed_field_present(e.fields, uf);
    let gf = EmbedFieldView { name: "Guild Information"@, value: guild_text(member, false), inline: false };
    lemma_pushed_field_present(e.fields, gf);
    if let Some(p) = member_permissions(user) {
        let pf = EmbedFieldView { name: "Guild-Level Permissions"@, value: permissions_text(p), inline: false };
        lemma_pushed_field_present(e.fields, pf);
    }
    let e1 = match user.banner_url { Some(b) => EmbedView { image_url: Some(b@), ..e }, None => e };
    lemma_pushed_field_present(e1.fields, uf);
    let u1 = user_information_spec(author, user, e);
    if has_field(e1.fields, "User Information"@) {
        assert(u1 == e1);
    }
    let u2 = match user.banner_url { Some(b) => EmbedView { image_url: Some(b@), ..u1 }, None => u1 };
    assert(u2 == u1);
}

} // verus!
