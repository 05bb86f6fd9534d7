use luro::info::{
    guild_information, guild_string, info_button_guild_permissions, luro_information, luro_string, permissions_string,
    sync, timestamps, timestamps_string, user_information, user_string, LuroRecords, MemberData, MemberInfo,
    MessageCounts, UserData, UserInfo,
};
use luro::response::EmbedData;

fn user(id: u64) -> UserInfo {
    UserInfo {
        user_id: id,
        name: "Nyx".to_string(),
        avatar_url: "https://nyx".to_string(),
        banner_url: None,
        accent_colour: None,
        email: None,
        locale: None,
        mfa_enabled: None,
        system: None,
        verified: None,
        bot: false,
        flags: None,
        public_flags: None,
        member: None,
        data: None,
    }
}

fn member() -> MemberInfo {
    MemberInfo {
        joined_at: 1600000000,
        boosting_since: None,
        nickname: Some("nyxie".to_string()),
        deafened: false,
        muted: true,
        pending: false,
        flags: 1,
        data: Some(MemberData {
            left_at: None,
            guild_owner: true,
            sorted_roles: vec![5, 6],
            role_count: 2,
            highest_role_colour: Some((0xff00ff, 6)),
            permissions: (1 << 1) | (1 << 2),
        }),
    }
}

fn author() -> UserInfo {
    let mut a = user(1);
    a.name = "Asker".to_string();
    a.avatar_url = "https://asker".to_string();
    a
}

const DISCORD_ID: u64 = 175928847299117063;

#[test]
fn account_age_comes_from_the_snowflake() {
    assert_eq!(
        timestamps_string(&user(DISCORD_ID)),
        "- Joined discord on <t:1462015105> - <t:1462015105:R>\n"
    );
    let mut u = user(DISCORD_ID);
    let mut m = member();
    m.boosting_since = Some(1600000100);
    m.data.as_mut().unwrap().left_at = Some(1600000200);
    u.member = Some(m);
    assert_eq!(
        timestamps_string(&u),
        "- Joined discord on <t:1462015105> - <t:1462015105:R>\n- Joined this server at <t:1600000000> - <t:1600000000:R>\n- Boosted this server since <t:1600000100> - <t:1600000100:R>\n- Left this server at <t:1600000200> - <t:1600000200:R>\n"
    );
}

#[test]
fn timestamps_section_is_added_once() {
    let mut e = EmbedData::new();
    timestamps(&author(), &user(DISCORD_ID), &mut e);
    assert_eq!(e.fields.len(), 1);
    assert_eq!(e.fields[0].name, "Timestamps");
    assert_eq!(e.footer_text.as_deref(), Some("Information requested by Asker"));
    assert_eq!(e.footer_icon_url.as_deref(), Some("https://asker"));
    timestamps(&author(), &user(DISCORD_ID), &mut e);
    assert_eq!(e.fields.len(), 1);
}

#[test]
fn permissions_are_named_and_sorted() {
    assert_eq!(permissions_string((1 << 2) | (1 << 1)), "```\nBAN_MEMBERS | KICK_MEMBERS```");
    assert_eq!(permissions_string(0), "```\n```");
}

#[test]
fn user_information_text() {
    let mut u = user(5);
    assert_eq!(user_string(&u), "");
    u.flags = Some(1 << 20);
    u.public_flags = Some(1 | (1 << 1));
    u.accent_colour = Some(0xabcdef);
    u.email = Some("a@b.c".to_string());
    u.mfa_enabled = Some(true);
    u.bot = true;
    assert_eq!(
        user_string(&u),
        "**USER IS MARKED FOR UNUSUAL AMOUNTS OF DMS**\n- User Flags (`1048576`): \n```\n```\n- Public Flags (`3`): \n```\nPARTNER | STAFF```\n- Accent Colour: `ABCDEF`\n- Email: `a@b.c`\n- MFA Enabled: `true`\n- Bot: `true`"
    );
}

#[test]
fn user_information_section() {
    let mut u = user(5);
    u.banner_url = Some("https://banner".to_string());
    let mut e = EmbedData::new();
    user_information(&author(), &u, &mut e);
    assert_eq!(e.image_url.as_deref(), Some("https://banner"));
    assert_eq!(e.fields[0].name, "User Information");
    assert_eq!(e.fields[0].value, "- I don't have any user information to report!");
    let mut u = user(5);
    u.member = Some(member());
    let mut e = EmbedData::new();
    user_information(&author(), &u, &mut e);
    assert_eq!(e.colour, Some(0xff00ff));
    assert_eq!(e.fields[0].value, "\n- Accent Colour: `FF00FF` (<@&6>)");
}

#[test]
fn member_information() {
    assert_eq!(
        guild_string(&member(), false),
        "\n- Nickname: `nyxie`\n- Muted: `true`\n- Member Flags (1): \n```\nDID_REJOIN```\n- Is the owner of this guild!\n- Roles (2): <@&5>, <@&6>"
    );
    assert!(guild_string(&member(), true).contains("- Member Flags (`1`): "));
    let mut e = EmbedData::new();
    guild_information(&author(), &member(), &mut e);
    assert_eq!(e.fields[0].name, "Guild Information");
    let quiet = MemberInfo {
        joined_at: 0,
        boosting_since: None,
        nickname: None,
        deafened: false,
        muted: false,
        pending: false,
        flags: 0,
        data: None,
    };
    let mut e = EmbedData::new();
    guild_information(&author(), &quiet, &mut e);
    assert!(e.fields.is_empty());
}

#[test]
fn bot_records() {
    let mut u = user(5);
    u.data = Some(UserData { permissions: "User".to_string(), gender: Some("fox".to_string()), sexuality: None });
    let counts = MessageCounts {
        total_messages: Some(10),
        total_words: Some(0),
        total_unique_words: None,
        total_custom_messages: Some(2),
        total_message_creates: None,
        total_message_cached: None,
        total_message_deletes: None,
        total_message_updates: None,
        total_message_message: None,
    };
    let records = LuroRecords { characters: Some(2), marriages: Some(vec![(false, false), (true, false), (false, true)]), counts: Some(counts) };
    assert_eq!(
        luro_string(&u, &records),
        "- Has `2` character profiles\n- Has `1` marriages\n- Is marked as `User` in my database!\n- Identifies as `fox`\n- Has sent `10` messages!\n  - `2` custom messages\n"
    );
    let nothing = LuroRecords { characters: Some(0), marriages: None, counts: None };
    let mut e = EmbedData::new();
    luro_information(&author(), &user(5), &nothing, &mut e);
    assert!(e.fields.is_empty());
    luro_information(&author(), &u, &records, &mut e);
    assert_eq!(e.fields[0].name, "Luro Information");
}

#[test]
fn permission_button() {
    let mut e = EmbedData::new();
    assert!(!info_button_guild_permissions(&author(), &user(5), &mut e));
    assert!(e.fields.is_empty());
    let mut u = user(5);
    u.member = Some(member());
    assert!(info_button_guild_permissions(&author(), &u, &mut e));
    assert_eq!(e.fields[0].name, "Guild-Level Permissions");
    assert_eq!(e.fields[0].value, "```\nBAN_MEMBERS | KICK_MEMBERS```");
    assert_eq!(e.footer_icon_url, None);
}

#[test]
fn sync_rewrites_every_shown_section() {
    let mut u = user(DISCORD_ID);
    u.member = Some(member());
    let records = LuroRecords { characters: Some(1), marriages: None, counts: None };
    let mut e = EmbedData::new();
    e.add_field("Timestamps", "old", false);
    e.add_field("Guild Information", "old", false);
    e.add_field("Other", "stays", true);
    sync(&author(), &u, &records, &mut e);
    assert_eq!(e.fields.len(), 3);
    assert_eq!(e.fields[0].value, timestamps_string(&u));
    assert_eq!(e.fields[1].value, guild_string(u.member.as_ref().unwrap(), true));
    assert_eq!((e.fields[2].value.as_str(), e.fields[2].inline), ("stays", true));
    assert_eq!(e.colour, Some(0xff00ff));
    assert_eq!(e.footer_text.as_deref(), Some("SYNCED | Information requested by Asker"));
}
