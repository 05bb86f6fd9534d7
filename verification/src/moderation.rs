//! Shared moderation pieces: the reasons and purge windows of punishments,
//! how a reason is worded, and the checks that guard a ban.
use vstd::prelude::*;
use crate::text::{chars_of, push_str, string_of};

verus! {

/// A preset reason for a punishment.
#[derive(PartialEq, Eq, Structural, Clone, Copy, Debug)]
pub enum PunishmentReason {
    ArtistScam,
    CompormisedAccount,
    Custom,
    Raider,
    Vile,
    Inactive,
}

/// The text a preset reason stands for.
pub open spec fn reason_value(r: PunishmentReason) -> Seq<char> {
    match r {
        PunishmentReason::ArtistScam => "[Artist Scam]"@,
        PunishmentReason::CompormisedAccount => "[Compromised Account]"@,
        PunishmentReason::Custom => ""@,
        PunishmentReason::Raider => "[Raider]"@,
        PunishmentReason::Vile => "[Vile]"@,
        PunishmentReason::Inactive => "[Inactive]"@,
    }
}

/// The worded reason: the preset alone; with details, the details alone
/// when they hold a backtick or the preset is empty, else
/// `preset - details`.
pub open spec fn fmt_spec(value: Seq<char>, details: Option<Seq<char>>) -> Seq<char> {
    match details {
        None => value,
        Some(d) => if d.contains('`') {
            d
        } else if value.len() == 0 {
            d
        } else {
            value + " - "@ + d
        },
    }
}

/// Whether `c` occurs in `s`.
pub fn has_char(s: &str, c: char) -> (b: bool)
    ensures
        b == s@.contains(c),
{
    let v = chars_of(s);
    let n = v.len();
    for i in 0..n
        invariant
            n == v@.len(),
            v@ == s@,
            forall|k: int| 0 <= k < i ==> v@[k] != c,
    {
        if v[i] == c {
            assert(s@[i as int] == c);
            return true;
        }
    }
    false
}

impl PunishmentReason {
    /// The text the reason stands for.
    pub fn value(&self) -> (s: String)
        ensures
            s@ == reason_value(*self),
    {
        match self {
            PunishmentReason::ArtistScam => string_of("[Artist Scam]"),
            PunishmentReason::CompormisedAccount => string_of("[Compromised Account]"),
            PunishmentReason::Custom => string_of(""),
            PunishmentReason::Raider => string_of("[Raider]"),
            PunishmentReason::Vile => string_of("[Vile]"),
            PunishmentReason::Inactive => string_of("[Inactive]"),
        }
    }

    /// Words the reason with the optional details.
    pub fn fmt(&self, details: Option<String>) -> (reason: String)
        ensures
            reason@ == fmt_spec(reason_value(*self), match details { Some(d) => Some(d@), None => None }),
    {
        let mut reason = self.value();
        if let Some(details) = details {
            if has_char(details.as_str(), '`') {
                reason = details;
            } else if reason.as_str().unicode_len() == 0 {
                push_str(&mut reason, details.as_str());
            } else {
                push_str(&mut reason, " - ");
                push_str(&mut reason, details.as_str());
            }
        }
        reason
    }
}

/// Details without a backtick are added to the preset reason; details with
/// one replace it; no details leave the preset as it is.
pub proof fn law_reason_keeps_details(value: Seq<char>, d: Seq<char>)
    ensures
        fmt_spec(value, None) == value,
        d.contains('`') ==> fmt_spec(value, Some(d)) == d,
        !d.contains('`') ==> fmt_spec(value, Some(d)) == value + (if value.len() == 0 { ""@ } else { " - "@ }) + d,
{
    reveal_strlit("");
    assert(value.len() == 0 ==> value + ""@ + d =~= d);
}

/// How much message history a ban purges.
#[derive(PartialEq, Eq, Structural, Clone, Copy, Debug)]
pub enum PunishmentPurgeAmount {
    DontDelete,
    Hour,
    SixHours,
    TwelveHours,
    TwentyFourHours,
    ThreeDays,
    SevenDays,
}

/// The purge window in seconds.
pub open spec fn purge_seconds(p: PunishmentPurgeAmount) -> i64 {
    match p {
        PunishmentPurgeAmount::DontDelete => 0,
        PunishmentPurgeAmount::Hour => 3_600,
        PunishmentPurgeAmount::SixHours => 21_600,
        PunishmentPurgeAmount::TwelveHours => 43_200,
        PunishmentPurgeAmount::TwentyFourHours => 86_400,
        PunishmentPurgeAmount::ThreeDays => 259_200,
        PunishmentPurgeAmount::SevenDays => 604_800,
    }
}

impl PunishmentPurgeAmount {
    /// The purge window in seconds.
    pub fn value(&self) -> (v: i64)
        ensures
            v == purge_seconds(*self),
    {
        match self {
            PunishmentPurgeAmount::DontDelete => 0,
            PunishmentPurgeAmount::Hour => 3_600,
            PunishmentPurgeAmount::SixHours => 21_600,
            PunishmentPurgeAmount::TwelveHours => 43_200,
            PunishmentPurgeAmount::TwentyFourHours => 86_400,
            PunishmentPurgeAmount::ThreeDays => 259_200,
            PunishmentPurgeAmount::SevenDays => 604_800,
        }
    }
}

/// The place of a role in the guild's hierarchy: roles compare by position,
/// then by ID.
#[derive(PartialEq, Eq, Structural, Clone, Copy, Debug)]
pub struct RoleRank {
    pub position: i64,
    pub id: u64,
}

/// `a` is at or below `b` in the hierarchy order.
pub open spec fn rank_le(a: RoleRank, b: RoleRank) -> bool {
    a.position < b.position || (a.position == b.position && a.id <= b.id)
}

/// Compares two roles in the hierarchy order.
pub fn role_le(a: RoleRank, b: RoleRank) -> (r: bool)
    ensures
        r == rank_le(a, b),
{
    a.position < b.position || (a.position == b.position && a.id <= b.id)
}

/// Why a ban is refused.
#[derive(PartialEq, Eq, Structural, Clone, Copy, Debug)]
pub enum PermissionError {
    BotMissingPermission,
    MissingPermission,
    ModifyServerOwner,
    UserHeirarchy,
    BotHeirarchy,
}

/// What the checks know of one party: whether it may ban members, and its
/// highest role.
#[derive(Clone, Copy, Debug)]
pub struct PartyPermissions {
    pub can_ban: bool,
    pub highest_role: Option<RoleRank>,
}

/// The checks are skipped when the author's ID differs from the guild
/// owner's.
pub open spec fn bypasses_checks(author_id: u64, owner_id: u64) -> bool {
    author_id != owner_id
}

/// The outcome of the checks, in their order: the bot, then the author,
/// may ban; the target is not the guild owner; a target role at or below
/// the bot's highest, then at or below the author's highest, is refused.
pub open spec fn permission_spec(
    author_id: u64,
    owner_id: u64,
    author: PartyPermissions,
    bot: PartyPermissions,
    target_id: u64,
    target_highest_role: Option<RoleRank>,
) -> Result<(), PermissionError> {
    if bypasses_checks(author_id, owner_id) {
        Ok(())
    } else if !bot.can_ban {
        Err(PermissionError::BotMissingPermission)
    } else if !author.can_ban {
        Err(PermissionError::MissingPermission)
    } else if target_id == owner_id {
        Err(PermissionError::ModifyServerOwner)
    } else {
        match target_highest_role {
            Some(t) => if bot.highest_role is Some && rank_le(t, bot.highest_role->0) {
                Err(PermissionError::UserHeirarchy)
            } else if author.highest_role is Some && rank_le(t, author.highest_role->0) {
                Err(PermissionError::BotHeirarchy)
            } else {
                Ok(())
            },
            None => Ok(()),
        }
    }
}

/// Whether the role checks are skipped for this author; when they are not,
/// the parties' roles are synced before `permission_check` runs.
pub fn bypasses_hierarchy(author_id: u64, owner_id: u64) -> (b: bool)
    ensures
        b == bypasses_checks(author_id, owner_id),
{
    author_id != owner_id
}

/// The checks that guard a ban. `target_highest_role` is the first of the
/// target's roles when the target is a member of the guild.
pub fn permission_check(
    author_id: u64,
    owner_id: u64,
    author: PartyPermissions,
    bot: PartyPermissions,
    target_id: u64,
    target_highest_role: Option<RoleRank>,
) -> (r: Result<(), PermissionError>)
    ensures
        r == permission_spec(author_id, owner_id, author, bot, target_id, target_highest_role),
{
    if bypasses_hierarchy(author_id, owner_id) {
        return Ok(());
    }
    if !bot.can_ban {
        return Err(PermissionError::BotMissingPermission);
    }
    if !author.can_ban {
        return Err(PermissionError::MissingPermission);
    }
    if target_id == owner_id {
        return Err(PermissionError::ModifyServerOwner);
    }
    if let Some(target_highest) = target_highest_role {
        if let Some(bot_highest) = bot.highest_role {
            if role_le(target_highest, bot_highest) {
                return Err(PermissionError::UserHeirarchy);
            }
        }
        if let Some(author_highest) = author.highest_role {
            if role_le(target_highest, author_highest) {
                return Err(PermissionError::BotHeirarchy);
            }
        }
    }
    Ok(())
}

/// Once the checks run, the guild owner can never be the target of a ban.
pub proof fn law_owner_is_never_banned(
    author_id: u64,
    owner_id: u64,
    author: PartyPermissions,
    bot: PartyPermissions,
    target_highest_role: Option<RoleRank>,
)
    requires
        !bypasses_checks(author_id, owner_id),
    ensures
        permission_spec(author_id, owner_id, author, bot, owner_id, target_highest_role) is Err,
{
}

/// `/ban`: ban a user.
#[derive(Debug)]
pub struct Ban {
    /// The user to ban
    pub user_id: u64,
    /// Message history to purge in seconds. Defaults to 1 day. Max is 604800.
    pub purge: PunishmentPurgeAmount,
    /// The reason they should be banned.
    pub reason: PunishmentReason,
    /// Some added description to why they should be banned
    pub details: Option<String>,
    /// Hide the banned message from chat, useful for discreet bans
    pub ephemeral: Option<bool>,
}

/// How the ban request is made.
#[derive(Debug)]
pub struct BanRequest {
    /// The worded reason shown to everyone.
    pub reason: String,
    /// Seconds of the target's messages to delete.
    pub delete_message_seconds: u32,
    /// The reason attached to the audit log entry, if any: it is attached
    /// exactly when the worded reason is empty.
    pub audit_reason: Option<String>,
}

impl Ban {
    /// The request that `/ban` makes of Discord once the checks passed.
    pub fn ban_request(&self) -> (r: BanRequest)
        ensures
            r.reason@ == fmt_spec(reason_value(self.reason), match self.details { Some(d) => Some(d@), None => None }),
            r.delete_message_seconds == purge_seconds(self.purge),
            r.audit_reason is Some <==> r.reason@.len() == 0,
            r.audit_reason matches Some(a) ==> a@ == r.reason@,
    {
        let details = match &self.details {
            Some(d) => Some(d.clone()),
            None => None,
        };
        let reason = self.reason.fmt(details);
        let audit_reason = if reason.as_str().unicode_len() == 0 { Some(reason.clone()) } else { None };
        let seconds = self.purge.value() as u32;
        BanRequest { reason, delete_message_seconds: seconds, audit_reason }
    }
}

} // verus!
