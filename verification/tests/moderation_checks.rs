use luro::moderation::{
    bypasses_hierarchy, permission_check, Ban, PartyPermissions, PermissionError, PunishmentPurgeAmount,
    PunishmentReason, RoleRank,
};

#[test]
fn reasons_are_worded() {
    assert_eq!(PunishmentReason::ArtistScam.value(), "[Artist Scam]");
    assert_eq!(PunishmentReason::CompormisedAccount.value(), "[Compromised Account]");
    assert_eq!(PunishmentReason::Custom.value(), "");
    assert_eq!(PunishmentReason::ArtistScam.fmt(Some("fake commissions".to_string())), "[Artist Scam] - fake commissions");
    assert_eq!(PunishmentReason::Custom.fmt(Some("my reason".to_string())), "my reason");
    assert_eq!(PunishmentReason::Vile.fmt(Some("has `code`".to_string())), "has `code`");
    assert_eq!(PunishmentReason::Raider.fmt(None), "[Raider]");
    assert_eq!(PunishmentReason::Inactive.fmt(None), "[Inactive]");
}

#[test]
fn purge_windows() {
    assert_eq!(PunishmentPurgeAmount::DontDelete.value(), 0);
    assert_eq!(PunishmentPurgeAmount::Hour.value(), 3_600);
    assert_eq!(PunishmentPurgeAmount::SixHours.value(), 21_600);
    assert_eq!(PunishmentPurgeAmount::TwelveHours.value(), 43_200);
    assert_eq!(PunishmentPurgeAmount::TwentyFourHours.value(), 86_400);
    assert_eq!(PunishmentPurgeAmount::ThreeDays.value(), 259_200);
    assert_eq!(PunishmentPurgeAmount::SevenDays.value(), 604_800);
}

fn party(can_ban: bool, highest: Option<(i64, u64)>) -> PartyPermissions {
    PartyPermissions { can_ban, highest_role: highest.map(|(position, id)| RoleRank { position, id }) }
}

#[test]
fn ban_permission_checks() {
    let owner = 1;
    let author = party(true, Some((5, 50)));
    let bot = party(true, Some((3, 30)));
    // Anyone but the guild owner skips the checks.
    assert!(bypasses_hierarchy(2, owner));
    assert_eq!(permission_check(2, owner, party(false, None), party(false, None), owner, None), Ok(()));
    // The owner goes through them in order.
    assert_eq!(permission_check(owner, owner, author, party(false, None), 9, None), Err(PermissionError::BotMissingPermission));
    assert_eq!(permission_check(owner, owner, party(false, None), bot, 9, None), Err(PermissionError::MissingPermission));
    assert_eq!(permission_check(owner, owner, author, bot, owner, None), Err(PermissionError::ModifyServerOwner));
    let low = Some(RoleRank { position: 1, id: 10 });
    assert_eq!(permission_check(owner, owner, author, bot, 9, low), Err(PermissionError::UserHeirarchy));
    let middle = Some(RoleRank { position: 4, id: 40 });
    assert_eq!(permission_check(owner, owner, author, bot, 9, middle), Err(PermissionError::BotHeirarchy));
    let high = Some(RoleRank { position: 9, id: 90 });
    assert_eq!(permission_check(owner, owner, author, bot, 9, high), Ok(()));
    assert_eq!(permission_check(owner, owner, author, bot, 9, None), Ok(()));
}

#[test]
fn ban_request_attaches_the_audit_reason_only_when_empty() {
    let ban = Ban {
        user_id: 7,
        purge: PunishmentPurgeAmount::Hour,
        reason: PunishmentReason::Raider,
        details: Some("spam".to_string()),
        ephemeral: None,
    };
    let r = ban.ban_request();
    assert_eq!(r.reason, "[Raider] - spam");
    assert_eq!(r.delete_message_seconds, 3600);
    assert_eq!(r.audit_reason, None);
    let ban = Ban { user_id: 7, purge: PunishmentPurgeAmount::DontDelete, reason: PunishmentReason::Custom, details: None, ephemeral: Some(true) };
    let r = ban.ban_request();
    assert_eq!(r.reason, "");
    assert_eq!(r.delete_message_seconds, 0);
    assert_eq!(r.audit_reason.as_deref(), Some(""));
}
