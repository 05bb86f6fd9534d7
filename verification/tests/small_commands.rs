use luro::dice::{DiceRollDirectionCommand, DiceStatsCommand, Direction, Stats};
use luro::hello::{CountCommand, Hello, HelloCommand};
use luro::info_command::{
    buttons, info_button, info_component, info_recent_messages, Guild, GuildLookup, GuildSummary, Info, InfoButton,
    InfoContext, InfoError, InfoRole, InfoUser, RecentMessage,
};
use luro::info::{LuroRecords, UserInfo};
use luro::lewd::{Command as Muzzle, FursonaNSFWCommand, LewdCommands};
use luro::character::AutocompleteValue;
use luro::marry::{Divorce, Spouse};
use luro::modals::{Embed, Modify, TextInputStyle};
use luro::moderation::{PunishmentPurgeAmount, PunishmentReason, RoleRank};
use luro::music::{load_type_name, music_guild, InfoCommand, LoadType, MusicError, NodeMemory, NodeStats, PlayCommand};
use luro::nickname::{Command as Nickname, NicknameError};
use luro::owner::{Assign, AssignAction, ClearMarriage, Fakeban, GuildEntry, Guilds, Log, LogLevel};
use luro::ping::{Latency, Ping};
use luro::quote::{Quote, QuoteRemoval, Remove};
use luro::response::EmbedData;
use luro::routing::{interaction_handler, Route};

#[test]
fn dice_replies() {
    let r = Direction { ephemeral: Some(true) }.handle_command("North East");
    assert_eq!((r.content.as_deref(), r.ephemeral), (Some("North East"), true));
    let r = Stats { ephemeral: None }.handle_command("STR 10");
    assert_eq!((r.content.as_deref(), r.ephemeral), (Some("**Your stats, as requested:**\nSTR 10"), false));
    let r = DiceRollDirectionCommand { ephemeral: Some(false) }.run_command("South");
    assert_eq!((r.content.as_deref(), r.ephemeral), (Some("South"), false));
    let r = DiceStatsCommand { ephemeral: Some(true) }.run_command("x");
    assert!(r.ephemeral);
}

#[test]
fn greetings_and_counting() {
    assert_eq!(
        Hello {}.handle_command("Luro", 5).content.as_deref(),
        Some("Hello World! I am **Luro**. It's nice to meet you, <@5>!")
    );
    assert_eq!(
        HelloCommand {}.run_command(Some((5, "Nyx".to_string())), "Luro").content.as_deref(),
        Some("Hello World! I am **Nyx**. It's nice to meet you, <@5>!")
    );
    assert_eq!(
        HelloCommand {}.run_command(None, "Luro").content.as_deref(),
        Some("Hello World! I am **Luro**. It's nice to meet you, but unfortunately I cannot see your name :(")
    );
    let mut count = Some(41);
    assert_eq!(CountCommand {}.run_command(&mut count).content.as_deref(), Some("Here is your number: 42"));
    assert_eq!(count, Some(42));
    let mut poisoned = None;
    assert_eq!(CountCommand {}.run_command(&mut poisoned).content.as_deref(), Some("Count is poisoned :("));
}

#[test]
fn muzzle_fills_in_both_parties() {
    for _ in 0..30 {
        let text = Muzzle { user: 2 }.handle_command(1).content.unwrap();
        assert!(!text.contains("<user>") && !text.contains("<author>"));
        assert!(text.contains("<@2>"));
    }
    assert!(LewdCommands::allowed(None));
    assert!(LewdCommands::allowed(Some(true)));
    assert!(!LewdCommands::allowed(Some(false)));
    let f = FursonaNSFWCommand { name: AutocompleteValue::Unset, user: Some(3), message: "hi".to_string() };
    assert_eq!(f.run_command().content.as_deref(), Some("Hey <@3>!\nhi"));
}

#[test]
fn divorce_announcement() {
    let d = Divorce { user: 2, reason: "it's over".to_string() };
    let m = d.record(1, 2);
    assert!(m.divorced && !m.rejected);
    let p = Spouse { user_id: 1, name: "A".to_string(), avatar: "av".to_string() };
    let q = Spouse { user_id: 2, name: "B".to_string(), avatar: "bv".to_string() };
    let r = d.announce(&p, &q, 0xff0000, vec![]);
    assert_eq!(r.content.as_deref(), Some("Bad news <@2>..."));
    assert_eq!(r.embeds[0].title.as_deref(), Some("A has terminated their marriage with B!"));
    assert_eq!(r.embeds[0].fields[1].value, "None!");
}

#[test]
fn owner_commands() {
    let a = Assign { role: 9, user: None, remove: Some(true) };
    assert_eq!(a.target(4), 4);
    assert_eq!(a.action(true), AssignAction::Remove);
    assert_eq!(a.action(false), AssignAction::NotGuild);
    assert_eq!(a.done(true, 4).content.as_deref(), Some("Role <@&9> removed from <@4>!"));
    let a = Assign { role: 9, user: Some(5), remove: None };
    assert_eq!(a.action(true), AssignAction::Add);
    assert_eq!(a.done(false, 5).content.as_deref(), Some("Role <@&9> assigned to <@5>!"));
    assert_eq!(ClearMarriage { user_1: 1, user_2: 2 }.marriage_key(), (1, 2));
    assert_eq!(ClearMarriage { user_1: 1, user_2: 2 }.handle_command().content.as_deref(), Some("Looks like they are single now..."));
    let f = Fakeban { user_id: 1, purge: PunishmentPurgeAmount::ThreeDays, reason: PunishmentReason::Vile, details: None };
    assert_eq!(f.punishment(), ("[Vile]".to_string(), 259_200));
    assert_eq!(Fakeban::dm_successful(false, true), Some(false));
    assert_eq!(Fakeban::dm_successful(true, true), Some(true));
    let gs = vec![GuildEntry { name: "A".to_string(), guild_id: 1 }, GuildEntry { name: "B".to_string(), guild_id: 2 }];
    let r = Guilds { show_id: Some(true) }.interaction_command(&gs, 3);
    assert_eq!(r.embeds[0].description.as_deref(), Some("- A - <#1> - 1\n- B - <#2> - 2\n"));
    let r = Guilds { show_id: None }.interaction_command(&gs, 3);
    assert_eq!(r.embeds[0].description.as_deref(), Some("- A - <#1>\n- B - <#2>\n"));
    assert_eq!(r.embeds[0].title.as_deref(), Some("All the guilds that I am in"));
    let r = Log { level: LogLevel::Warn }.interaction_command();
    assert_eq!((r.content.as_deref(), r.ephemeral), (Some("Luro's log level is now set to WARN!"), true));
    assert_eq!(Nickname::guild(None), Err(NicknameError::NotGuild));
    assert_eq!(Nickname::done().content.as_deref(), Some("Done!!"));
}

#[test]
fn only_owners_remove_quotes() {
    let q = |id: u64| Quote { author: 1, content: format!("quote {id}"), guild_id: None, channel_id: 8, id };
    let mut quotes = std::collections::HashMap::new();
    quotes.insert(1usize, q(11));
    quotes.insert(2usize, q(12));
    let owners = vec![42u64, 7];
    assert!(matches!(Remove { id: 1 }.remove_as(5, &owners, &mut quotes), QuoteRemoval::NotOwner));
    assert_eq!(quotes.len(), 2);
    assert!(matches!(Remove { id: 3 }.remove_as(7, &owners, &mut quotes), QuoteRemoval::Missing));
    assert_eq!(quotes.len(), 2);
    match (Remove { id: 1 }).remove_as(42, &owners, &mut quotes) {
        QuoteRemoval::Removed(r) => assert_eq!(r.content, "quote 11"),
        other => panic!("unexpected {other:?}"),
    }
    assert!(!quotes.contains_key(&1));
    assert!(quotes.contains_key(&2));
}

#[test]
fn quotes_are_removed() {
    let q = |id: u64| Quote { author: 1, content: format!("quote {id}"), guild_id: Some(7), channel_id: 8, id };
    let mut quotes = std::collections::HashMap::new();
    quotes.insert(1usize, q(11));
    quotes.insert(2usize, q(12));
    let removed = Remove { id: 2 }.take_quote(&mut quotes).unwrap();
    assert_eq!(removed.content, "quote 12");
    assert_eq!(quotes.len(), 1);
    assert!(quotes.contains_key(&1));
    assert!(Remove { id: 5 }.take_quote(&mut quotes).is_none());
    assert_eq!(quotes.len(), 1);
    assert_eq!(Remove::missing().content.as_deref(), Some("That quote is not present!"));
    let r = Remove { id: 2 }.removed(&removed, "Nyx", "av", 3);
    let e = &r.embeds[0];
    assert_eq!(e.author_name.as_deref(), Some("Nyx - Quote 2 Removed"));
    assert_eq!(e.author_url.as_deref(), Some("https://discord.com/channels/7/8/12"));
    let dm = Quote { author: 1, content: "x".to_string(), guild_id: None, channel_id: 8, id: 9 };
    assert_eq!(Remove { id: 1 }.removed(&dm, "Nyx", "av", 3).embeds[0].author_url.as_deref(), Some("https://discord.com/channels/8/9"));
}

#[test]
fn ping_embed() {
    let l = Latency { average: Some(42), received_ago: None, sent_ago: Some(7), recent: vec![40, 44], periods: 2 };
    let e = Ping {}.latency_embed(&l, 1);
    assert_eq!(e.description.as_deref(), Some("🏓 Pinging!"));
    let fields: Vec<(&str, &str, bool)> = e.fields.iter().map(|f| (f.name.as_str(), f.value.as_str(), f.inline)).collect();
    assert_eq!(
        fields,
        vec![
            ("Average Latency", "`42` milliseconds", true),
            ("Hearbeat Sent", "7 milliseconds ago", true),
            ("Hearbeats", "**Total Heartbeats Recorded:** `2`\n```1 - 40 milliseconds\n2 - 44 milliseconds\n```", false),
        ]
    );
    let sent = Ping::sent_text(12);
    assert_eq!(sent, "Pong!\n`Send MESSAGE` API request achnowledged and received in `12` milliseconds!");
    assert_eq!(
        Ping::lookup_text(&sent, 3),
        format!("{sent}\n`Get USER` API request achnowledged and received in `3` milliseconds!")
    );
}

#[test]
fn music_commands() {
    assert_eq!(music_guild(None), Err(MusicError::NotGuild));
    let s = NodeStats {
        cores: 4,
        lavalink_load: "0.10".to_string(),
        system_load: "0.50".to_string(),
        memory: NodeMemory { allocated: 10 * 1024 * 1024, used: 5 * 1024 * 1024, reservable: 20 * 1024 * 1024, free: 1024 },
        players: 3,
        playing_players: 1,
        uptime: 99,
    };
    let r = InfoCommand {}.interaction_command(&s, 2);
    assert_eq!(
        r.embeds[0].description.as_deref(),
        Some("**Consumption:** `4` cores assigned - `0.10` lavalink load - `0.50` system load\n**Memory:** `10MB` allocated - `5MB` used - `20MB` reservable - `0MB` free\n")
    );
    assert_eq!(r.embeds[0].fields[2].value, "99");
    assert_eq!(load_type_name(LoadType::NoMatches), "Failed");
    assert_eq!(PlayCommand { song: "x".to_string(), volume: None }.volume(), 10);
    assert_eq!(PlayCommand { song: "x".to_string(), volume: Some(50) }.volume(), 50);
    let r = PlayCommand::content(&Some((Some("Song".to_string()), Some("Band".to_string()))), 10);
    assert_eq!(r.content.as_deref(), Some("- Playing **Song** by **Band** - Volume 10"));
    let r = PlayCommand::content(&Some((None, Some("Band".to_string()))), 10);
    assert_eq!(r.content.unwrap(), format!("- Playing **None** by **{:#?}** - Volume 10", Some("Band".to_string())));
    assert_eq!(PlayCommand::content(&None, 10).content.as_deref(), Some("Didn't find any results"));
}

#[test]
fn forms() {
    let m = Embed {}.interaction_command();
    assert_eq!((m.title.as_str(), m.custom_id.as_str()), ("Setup a modal below", "embed"));
    assert_eq!(m.inputs[0].style, Some(TextInputStyle::Short));
    let r = Embed::interaction_modal("hello");
    assert_eq!(r.embeds[0].colour, Some(2829617));
    assert_eq!(r.embeds[0].description.as_deref(), Some("hello"));
    let m = Modify {}.interaction_command(123);
    assert_eq!(m.inputs.len(), 4);
    assert_eq!(m.inputs[3].value.as_deref(), Some("123"));
    assert_eq!(m.inputs[0].required, Some(false));
}

#[test]
fn routes() {
    assert_eq!(interaction_handler("about", true), Route::About);
    assert_eq!(interaction_handler("base64-decode", false), Route::Base64);
    assert_eq!(interaction_handler("ping", true), Route::Ping);
    assert_eq!(interaction_handler("ping", false), Route::UnknownCommand);
    assert_eq!(interaction_handler("warn", true), Route::Warn);
    assert_eq!(interaction_handler("nothing", true), Route::UnknownCommand);
}

fn info_user(id: u64) -> UserInfo {
    UserInfo {
        user_id: id,
        name: "Nyx".to_string(),
        avatar_url: "av".to_string(),
        banner_url: None,
        accent_colour: None,
        email: None,
        locale: None,
        mfa_enabled: None,
        system: None,
        verified: None,
        bot: false,
        flags: None,
        public_flags: None,
        member: None,
        data: None,
    }
}

#[test]
fn info_buttons_and_presses() {
    assert_eq!(info_button("info-button-sync"), InfoButton::Sync);
    assert_eq!(info_button("nope"), InfoButton::Unknown);
    let rows = buttons(true, true);
    assert_eq!(rows.len(), 2);
    assert_eq!(rows[1].len(), 4);
    let rows = buttons(false, false);
    assert_eq!(rows.len(), 1);
    let ids: Vec<&str> = rows[0].iter().map(|b| b.custom_id.as_str()).collect();
    assert_eq!(ids, vec!["info-button-clear", "info-button-sync"]);
    let c = InfoContext {
        author: info_user(1),
        user: info_user(175928847299117063),
        records: LuroRecords { characters: None, marriages: None, counts: None },
        messages: vec![
            RecentMessage { guild_id: Some(3), channel_id: 4, id: 5, content: "hi".to_string() },
            RecentMessage { guild_id: None, channel_id: 6, id: 7, content: String::new() },
        ],
        in_guild: false,
        accent: 9,
    };
    assert_eq!(info_component("info-button-user", &c, None).unwrap_err(), InfoError::NoEmbed);
    assert_eq!(info_component("nope", &c, Some(EmbedData::new())).unwrap_err(), InfoError::UnknownCommand);
    assert_eq!(info_component("info-button-guild", &c, Some(EmbedData::new())).unwrap_err(), InfoError::NoMember);
    let r = info_component("info-button-timestamps", &c, Some(EmbedData::new())).unwrap();
    assert!(r.update);
    assert_eq!(r.embeds[0].fields[0].name, "Timestamps");
    assert_eq!(r.components.len(), 2);
    let r = info_component("info-button-guild-permissions", &c, Some(EmbedData::new())).unwrap();
    assert_eq!((r.content.as_deref(), r.ephemeral), (Some("Could not calculate permissions! Sorry!"), true));
    let r = info_component("info-button-messages", &c, Some(EmbedData::new())).unwrap();
    assert!(r.ephemeral);
    let r2 = info_recent_messages(&c.author, &c.user, &c.messages, 9);
    let e = &r2.embeds[0];
    assert_eq!(e.fields.len(), 1);
    assert_eq!(e.fields[0].name, "https://discord.com/channels/3/4/5");
    assert_eq!(e.author_name.as_deref(), Some("Recent Messages sent by Nyx | 175928847299117063"));
    assert_eq!(r.embeds[0].fields.len(), 1);
    let mut with_fields = EmbedData::new();
    with_fields.add_field("x", "y", false);
    let r = info_component("info-button-clear", &c, Some(with_fields)).unwrap();
    assert!(r.embeds[0].fields.is_empty());
}

#[test]
fn info_subcommands() {
    let info = Info::User(InfoUser { user: Some(9) });
    assert_eq!(info.subject(Some(1)), Some(9));
    assert_eq!(Info::Database.subject(Some(1)), Some(1));
    let g = Guild { guild: Some("123".to_string()), gdpr_export: Some(true), refresh: None };
    assert_eq!(g.lookup(false), GuildLookup::Requested(123));
    assert_eq!(Guild { guild: Some("abc".to_string()), gdpr_export: None, refresh: None }.lookup(true), GuildLookup::BadId);
    assert_eq!(Guild { guild: None, gdpr_export: None, refresh: None }.lookup(false), GuildLookup::NotGuild);
    let summary = GuildSummary { name: "Den".to_string(), owner_id: 5, afk_timeout: 300 };
    let r = g.reply(&summary, 6, EmbedData::new());
    assert_eq!(r.reply.content.as_deref(), Some("Hey <@5>! <@6> is being a cunt and trying to steal your guild data!"));
    assert_eq!(r.export_file, None);
    let e = &r.reply.embeds[0];
    assert_eq!(e.title.as_deref(), Some("Den"));
    assert_eq!(e.description.as_deref(), Some("- Owner: <@5>\n- AFK Timeout: 300 seconds\n"));
    assert_eq!(e.fields[0].value, "- Guild Name: Den\n");
    let r = g.reply(&summary, 5, EmbedData::new());
    assert_eq!(r.export_file.as_deref(), Some("gdpr-export-5.txt"));
    assert_eq!(r.reply.content, None);
    let roles = vec![RoleRank { position: 1, id: 10 }, RoleRank { position: 3, id: 30 }, RoleRank { position: 2, id: 20 }];
    let r = InfoRole { role: 20 }.run_command(Some("Mods".to_string()), &roles, EmbedData::new());
    assert_eq!(r.embeds[0].description.as_deref(), Some("<@&30>\n--> <@&20> <--\n<@&10>\n"));
    let r = InfoRole { role: 20 }.run_command(None, &roles, EmbedData::new());
    assert_eq!(r.content.as_deref(), Some("Role not found!"));
}

#[test]
fn every_registered_command_is_routed() {
    for name in ["about", "ban", "base64", "boop", "dice", "uwu", "ping", "owner", "kick", "warn", "unban"] {
        assert_ne!(interaction_handler(name, true), Route::UnknownCommand, "{name}");
    }
    for name in ["about", "ban", "base64", "boop", "dice", "uwu", "owner"] {
        assert_ne!(interaction_handler(name, false), Route::UnknownCommand, "{name}");
    }
}

#[test]
fn the_luro_command_wraps_the_nickname() {
    let c = luro::Command::Nickname(Nickname { name: Some("Lu".to_string()) });
    match c {
        luro::Command::Nickname(n) => assert_eq!(n.name.as_deref(), Some("Lu")),
    }
    assert_eq!(Nickname::guild(Some(3)), Ok(3));
}
