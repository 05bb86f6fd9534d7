use luro::moderation::{role_le, RoleRank};
use luro::response::EmbedData;
use luro::roles::{
    add_role_field, escalation_alert, role_menu_embed, role_menu_update, sort_roles, BlacklistError, Menu, Remove,
    RoleMenuError,
};

fn r(position: i64, id: u64) -> RoleRank {
    RoleRank { position, id }
}

#[test]
fn roles_sort_in_hierarchy_order() {
    let sorted = sort_roles(&vec![r(3, 30), r(1, 10), r(2, 25), r(2, 20)]);
    let ids: Vec<u64> = sorted.iter().map(|x| x.id).collect();
    assert_eq!(ids, vec![10, 20, 25, 30]);
    for w in sorted.windows(2) {
        assert!(role_le(w[0], w[1]));
    }
    assert!(sort_roles(&vec![]).is_empty());
}

#[test]
fn menu_sorts_requests() {
    let guild = vec![r(1, 10), r(3, 30), r(2, 20)];
    let member = vec![r(2, 20)];
    let blacklist = vec![30];
    let values = vec!["10".to_string(), "30".to_string(), "nope".to_string()];
    let o = role_menu_update(&guild, &member, &blacklist, &values, None, "roles-select").unwrap();
    assert_eq!(o.current, vec![20]);
    assert!(o.add.is_empty());
    assert!(o.remove.is_empty());
    assert_eq!(o.blacklisted, vec![30]);
    assert_eq!(o.too_high, vec![10]);
}

#[test]
fn blacklisted_or_high_roles_are_never_added() {
    let guild = vec![r(1, 10), r(2, 20), r(3, 30), r(4, 40)];
    let member = vec![r(1, 10)];
    let blacklist = vec![40];
    let values = vec!["20".to_string(), "30".to_string(), "40".to_string()];
    let o = role_menu_update(&guild, &member, &blacklist, &values, None, "roles-select").unwrap();
    assert!(!o.add.contains(&40));
    assert_eq!(o.blacklisted, vec![40]);
    assert_eq!(o.add, vec![20, 30]);
}

#[test]
fn menu_without_roles_fails() {
    let e = role_menu_update(&vec![r(1, 10)], &vec![], &vec![], &vec![], None, "x").unwrap_err();
    assert_eq!(e, RoleMenuError::NoRoles);
}

#[test]
fn menu_buttons_swap_roles() {
    let guild = vec![r(1, 10), r(2, 20)];
    let member = vec![r(1, 10), r(2, 20)];
    let menu = Menu { rules: Some(10), adult: Some(20), bait: Some(99) };
    let o = role_menu_update(&guild, &member, &vec![], &vec![], Some(&menu), "roles-button-rules").unwrap();
    assert_eq!(o.add, vec![10]);
    assert_eq!(o.remove, vec![20]);
    let o = role_menu_update(&guild, &member, &vec![], &vec![], Some(&menu), "roles-button-adult").unwrap();
    assert_eq!(o.add, vec![20]);
    assert_eq!(o.remove, vec![10]);
    let o = role_menu_update(&guild, &member, &vec![], &vec![], Some(&menu), "roles-button-bait").unwrap();
    assert_eq!(o.add, vec![99]);
    assert!(o.remove.is_empty());
}

#[test]
fn role_fields() {
    let mut e = EmbedData::new();
    add_role_field(&mut e, &[], "Nothing");
    assert!(e.fields.is_empty());
    add_role_field(&mut e, &[1, 2], "Roles");
    assert_eq!(e.fields[0].name, "Roles");
    assert_eq!(e.fields[0].value, "- <@&1>\n- <@&2>\n");
    assert!(e.fields[0].inline);
}

#[test]
fn menu_embed_and_alert() {
    let guild = vec![r(1, 10), r(2, 20)];
    let member = vec![r(2, 20)];
    let o = role_menu_update(&guild, &member, &vec![], &vec!["10".to_string()], None, "x").unwrap();
    let mut e = EmbedData::new();
    role_menu_embed(&mut e, &o, "Nyx", "av");
    assert_eq!(e.fields[0].name, "Your current roles");
    assert_eq!(e.fields[0].value, "- <@&20>\n");
    assert_eq!(e.author_name.as_deref(), Some("Nyx - Roles Updated"));
    let mut alert = EmbedData::new();
    escalation_alert(&mut alert, &[10], 7, "Nyx", "av", 0xff0000);
    assert_eq!(alert.title.as_deref(), Some("Privilege Escalation Attempt"));
    assert_eq!(
        alert.description.as_deref(),
        Some("The user <@7> just attempted to give themselves higher roles than they should have")
    );
    assert_eq!(alert.colour, Some(0xff0000));
    assert_eq!(alert.fields[0].name, "Selected Roles - Too High");
}

#[test]
fn blacklist_removal_is_for_staff() {
    let mut blacklist = vec![1, 2, 1, 3];
    let r = Remove { role: 1 }.interaction_command(5, &vec![4, 5], &mut blacklist).unwrap();
    assert_eq!(blacklist, vec![2, 3]);
    assert_eq!(r.content.as_deref(), Some("Added role <@&1> to the guild blacklist!"));
    assert!(r.ephemeral);
    let mut blacklist = vec![1];
    let e = Remove { role: 1 }.interaction_command(6, &vec![4, 5], &mut blacklist).unwrap_err();
    assert_eq!(e, BlacklistError::PermissionNotBotStaff);
    assert_eq!(blacklist, vec![1]);
}
