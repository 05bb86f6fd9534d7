use std::collections::HashMap;

use luro::heck::{
    check_hecks_are_present, format_heck, format_heck_id, get_heck, heck_add_plan, heck_reply, mention_string, pick_heck,
    Heck, HeckAddCommand, HeckCounts, HeckError, HeckInfo, HeckReloads, Hecks,
};

fn heck(message: &str, author: u64) -> Heck {
    Heck { heck_message: message.to_string(), author_id: author }
}

fn sample() -> Hecks {
    let mut hecks = Hecks { sfw_hecks: HashMap::new(), nsfw_hecks: HashMap::new() };
    hecks.insert(false, 1, heck("<author> hugs <user>", 10));
    hecks.insert(false, 2, heck("<user> got hecked", 11));
    hecks.insert(true, 1, heck("lewd <user>", 12));
    hecks
}

#[test]
fn requested_heck_is_fetched() {
    let mut hecks = sample();
    let (h, id) = get_heck(&mut hecks, &mut None, Some(2), true, false, 99).unwrap();
    assert_eq!(id, 2);
    assert_eq!(h.heck_message, "<user> got hecked");
    assert_eq!(h.author_id, 11);
    let (h, id) = get_heck(&mut hecks, &mut None, Some(1), true, true, 99).unwrap();
    assert_eq!((h.heck_message.as_str(), id), ("lewd <user>", 1));
}

#[test]
fn added_heck_is_fetched_by_its_id() {
    let mut hecks = sample();
    hecks.insert(true, 5, heck("new one", 3));
    let (h, id) = get_heck(&mut hecks, &mut None, Some(5), true, true, 99).unwrap();
    assert_eq!((h.heck_message.as_str(), h.author_id, id), ("new one", 3, 5));
    // The other collection did not change.
    assert!(hecks.sfw_hecks.get(&5).is_none());
}

#[test]
fn missing_heck_gives_the_stand_in() {
    let mut hecks = sample();
    let (h, id) = get_heck(&mut hecks, &mut None, Some(7), true, false, 99).unwrap();
    assert_eq!(id, 69);
    assert_eq!(h.heck_message, "No hecks of the requested type found!");
    assert_eq!(h.author_id, 99);
    let mut empty = Hecks { sfw_hecks: HashMap::new(), nsfw_hecks: HashMap::new() };
    let (h, id) = get_heck(&mut empty, &mut None, None, true, false, 4).unwrap();
    assert_eq!((h.heck_message.as_str(), h.author_id, id), ("No hecks of the requested type found!", 4, 69));
}

#[test]
fn random_heck_comes_from_the_collection_or_the_stand_in() {
    let mut hecks = sample();
    for _ in 0..20 {
        let (h, id) = get_heck(&mut hecks, &mut None, None, true, false, 99).unwrap();
        match id {
            1 => assert_eq!(h.heck_message, "<author> hugs <user>"),
            2 => assert_eq!(h.heck_message, "<user> got hecked"),
            69 => assert_eq!(h.heck_message, "No hecks of the requested type found!"),
            other => panic!("unexpected id {other}"),
        }
    }
}

#[test]
fn pick_uses_the_draw_for_id_zero() {
    let mut hecks = sample();
    let (h, id) = pick_heck(&mut hecks.sfw_hecks, 0, 1, 99);
    assert_eq!((h.heck_message.as_str(), id), ("<author> hugs <user>", 1));
    let (h, id) = pick_heck(&mut hecks.sfw_hecks, 0, 0, 99);
    assert_eq!((h.heck_message.as_str(), id), ("No hecks of the requested type found!", 69));
}

#[test]
fn heck_request_errors() {
    let mut hecks = sample();
    assert!(matches!(get_heck(&mut hecks, &mut None, Some(-1), true, false, 1), Err(HeckError::InvalidId)));
    assert!(matches!(get_heck(&mut hecks, &mut None, Some(1), false, false, 1), Err(HeckError::NotGuild)));
    let mut guild = Some(sample());
    let (h, _) = get_heck(&mut hecks, &mut guild, Some(1), false, false, 1).unwrap();
    assert_eq!(h.heck_message, "<author> hugs <user>");
    // The guild's heck was taken; the global one stays.
    assert!(guild.as_ref().unwrap().sfw_hecks.get(&1).is_none());
    assert!(hecks.sfw_hecks.get(&1).is_some());
}

#[test]
fn fetched_heck_is_removed() {
    let mut hecks = sample();
    let (h, id) = get_heck(&mut hecks, &mut None, Some(2), true, false, 99).unwrap();
    assert_eq!((h.heck_message.as_str(), id), ("<user> got hecked", 2));
    assert!(hecks.sfw_hecks.get(&2).is_none());
    assert!(hecks.sfw_hecks.get(&1).is_some());
    assert_eq!(hecks.nsfw_hecks.len(), 1);
    // Asked again, it is gone: the stand-in comes and nothing changes.
    let (h, id) = get_heck(&mut hecks, &mut None, Some(2), true, false, 99).unwrap();
    assert_eq!((h.heck_message.as_str(), id), ("No hecks of the requested type found!", 69));
    assert_eq!(hecks.sfw_hecks.len(), 1);
}

#[test]
fn heck_error_messages() {
    assert_eq!(HeckError::NotGuild.message(), "Guild ID is not present. You can only use this option in a guild.");
    assert_eq!(HeckError::NotGuildPlace.message(), "This place is not a guild. You can only use this option in a guild.");
    assert_eq!(HeckError::InvalidId.message(), "out of range integral type conversion attempted");
}

#[test]
fn heck_ids_are_kept() {
    assert_eq!(format_heck_id(17), 17);
    assert_eq!(format_heck_id(0), 0);
}

#[test]
fn placeholders_are_replaced() {
    let h = format_heck(&heck("<author> hugs <user>, <user>!", 8), 1, 2);
    assert_eq!(h.heck_message, "<@1> hugs <@2>, <@2>!");
    assert_eq!(h.author_id, 8);
    let h = format_heck(&heck("nothing to replace", 8), 1, 2);
    assert_eq!(h.heck_message, "nothing to replace");
    assert_eq!(mention_string(123), "<@123>");
}

#[test]
fn empty_id_lists_are_reloaded() {
    assert_eq!(
        check_hecks_are_present(Some((0, 3)), 1, 0),
        HeckReloads { guild_nsfw: true, guild_sfw: false, global_nsfw: false, global_sfw: true }
    );
    assert_eq!(
        check_hecks_are_present(None, 0, 2),
        HeckReloads { guild_nsfw: false, guild_sfw: false, global_nsfw: true, global_sfw: false }
    );
}

#[test]
fn new_heck_plan() {
    let p = heck_add_plan("heck-add-global", true, 3, None).unwrap();
    assert!(p.global);
    assert_eq!(p.heck_id, 4);
    assert_eq!(p.author_name, "Global Heck Created - NSFW Heck");
    assert_eq!(p.fields.len(), 2);
    assert_eq!((p.fields[0].name.as_str(), p.fields[0].value.as_str(), p.fields[0].inline), ("Global Heck", "Just created", true));
    assert_eq!((p.fields[1].name.as_str(), p.fields[1].value.as_str(), p.fields[1].inline), ("Heck ID", "4", true));
    let p = heck_add_plan("heck-add-guild", false, 3, Some(2)).unwrap();
    assert!(!p.global);
    assert_eq!(p.heck_id, 2);
    assert_eq!(p.author_name, "Guild Heck Created - SFW Heck");
    assert_eq!(p.fields[0].name, "Guild Heck");
    assert!(matches!(heck_add_plan("heck-add-guild", false, 3, None), Err(HeckError::NotGuildPlace)));
}

#[test]
fn heck_add_form() {
    let m = HeckAddCommand {}.run_command();
    assert_eq!(m.title, "Write your heck below!");
    assert_eq!(m.custom_id, "heck-add");
    assert_eq!(m.inputs.len(), 1);
    assert_eq!(m.inputs[0].custom_id, "heck-text");
    assert_eq!(m.inputs[0].min_length, Some(20));
    assert_eq!(m.inputs[0].max_length, Some(2048));
    assert_eq!(m.inputs[0].required, Some(true));
}

#[test]
fn heck_replies() {
    let r = heck_reply("<@1> hugs <@2>", 3, 2, Some(true), false, 5, "Nyx", "avatar");
    assert_eq!(r.content.as_deref(), Some("<@1> hugs <@2>"));
    assert!(r.embeds.is_empty());
    let r = heck_reply("<@1> hugs <@2>", 3, 2, None, true, 5, "Nyx", "avatar");
    assert_eq!(r.content.as_deref(), Some("<@2>"));
    let e = &r.embeds[0];
    assert_eq!(e.description.as_deref(), Some("<@1> hugs <@2>"));
    assert_eq!(e.colour, Some(5));
    assert_eq!(e.author_name.as_deref(), Some("Heck created by Nyx"));
    assert_eq!(e.author_icon_url.as_deref(), Some("avatar"));
    assert_eq!(e.footer_text.as_deref(), Some("Heck ID 3 - NSFW Heck"));
}

#[test]
fn heck_info_stats() {
    let global = HeckCounts { sfw_hecks: 1, nsfw_hecks: 2, sfw_ids: 3, nsfw_ids: 4 };
    let e = HeckInfo {}.run_command(&global, None);
    assert_eq!(e.title.as_deref(), Some("Heck Information - Global"));
    assert_eq!(e.fields.len(), 1);
    assert_eq!(e.fields[0].name, "Global Stats");
    assert_eq!(
        e.fields[0].value,
        "**GLOBAL SFW HECKS:** 1\n**GLOBAL NSFW HECKS:** 2\n**GLOBAL SFW IDS AVAILABLE:** 3\n**GLOBAL NSFW IDS AVAILABLE:** 4\n"
    );
    let guild = HeckCounts { sfw_hecks: 0, nsfw_hecks: 0, sfw_ids: 0, nsfw_ids: 9 };
    let e = HeckInfo {}.run_command(&global, Some(&guild));
    assert_eq!(e.fields[1].name, "Guild Stats");
    assert!(e.fields[1].value.ends_with("**GUILD NSFW IDS AVAILABLE:** 9\n"));
}
