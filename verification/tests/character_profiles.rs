use luro::character::classic::{
    button_rows, Add, ClassicCharacter, ClassicUser, Fetish, FetishCategory, Profile,
};
use luro::character::fetish::{fetish_reply, CharacterFetish, Create};
use luro::character::profile::{Command as ProfileCommand, ProfileOwner};
use luro::character::{
    character_cycle_image, character_embed_with, character_not_found, character_response, components, image_pool,
    merge_profile, profile_nsfw, sfw_channel_refusal, AutocompleteValue, CharacterError, CharacterForm, CharacterImage,
    CharacterNameAutocomplete, CharacterProfile, Command,
};
use luro::response::{Button, ButtonStyle, EmbedData};

fn profile(name: &str) -> CharacterProfile {
    CharacterProfile {
        user_id: 1,
        colour: None,
        nickname: None,
        name: name.to_string(),
        nsfw_description: None,
        nsfw_icon: None,
        nsfw_summary: None,
        prefix: None,
        sfw_description: "desc".to_string(),
        sfw_icon: "icon".to_string(),
        sfw_summary: format!("{name} summary"),
    }
}

fn form() -> CharacterForm {
    CharacterForm {
        name: "Nyx".to_string(),
        sfw_icon: "new icon".to_string(),
        sfw_summary: "new summary".to_string(),
        nsfw_summary: None,
        sfw_description: "new desc".to_string(),
        nsfw_description: Some("lewd".to_string()),
    }
}

#[test]
fn form_makes_or_updates_a_profile() {
    let c = merge_profile(None, form(), 7);
    assert_eq!(c.user_id, 7);
    assert_eq!(c.name, "Nyx");
    assert_eq!(c.sfw_icon, "new icon");
    assert_eq!(c.nsfw_description.as_deref(), Some("lewd"));
    assert_eq!(c.nsfw_summary, None);
    assert_eq!(c.prefix, None);
    let mut old = profile("Nyx");
    old.nsfw_summary = Some("kept".to_string());
    old.user_id = 3;
    let c = merge_profile(Some(old), form(), 7);
    assert_eq!(c.user_id, 3);
    assert_eq!(c.sfw_icon, "icon");
    assert_eq!(c.sfw_summary, "new summary");
    assert_eq!(c.sfw_description, "new desc");
    assert_eq!(c.nsfw_summary.as_deref(), Some("kept"));
    assert_eq!(c.nsfw_description.as_deref(), Some("lewd"));
}

#[test]
fn name_suggestions() {
    let cs = vec![profile("Nyx"), profile("Lyx"), profile("Fox")];
    let all = CharacterNameAutocomplete { name: AutocompleteValue::Unset }.suggestions(&cs);
    assert_eq!(all, vec!["Nyx", "Lyx", "Fox"]);
    let some = CharacterNameAutocomplete { name: AutocompleteValue::Focused("yx".to_string()) }.suggestions(&cs);
    assert_eq!(some, vec!["Nyx", "Lyx"]);
    for s in &some {
        assert!(s.contains("yx"));
    }
    let none = CharacterNameAutocomplete { name: AutocompleteValue::Completed("Nyx".to_string()) }.suggestions(&cs);
    assert!(none.is_empty());
}

#[test]
fn nsfw_profiles_only_where_allowed() {
    assert_eq!(profile_nsfw(Some(true), Some(false)), None);
    assert_eq!(profile_nsfw(Some(true), Some(true)), Some(true));
    assert_eq!(profile_nsfw(Some(true), None), Some(true));
    assert_eq!(profile_nsfw(Some(false), Some(true)), Some(false));
    assert_eq!(profile_nsfw(None, Some(true)), Some(true));
    assert_eq!(profile_nsfw(None, None), Some(false));
    for requested in [None, Some(true), Some(false)] {
        assert_ne!(profile_nsfw(requested, Some(false)), Some(true));
    }
    assert_eq!(sfw_channel_refusal().content.as_deref(), Some("You can't get a NSFW profile in a SFW channel, dork!"));
}

#[test]
fn missing_profile_lists_the_others() {
    let r = character_not_found(9, "Zed", &vec![profile("Nyx"), profile("Fox")]);
    assert!(r.ephemeral);
    assert_eq!(
        r.content.as_deref(),
        Some("I'm afraid that user <@9> has no characters with the name `Zed`! They do however, have the following profiles configured...\n- Nyx: Nyx summary\n- Fox: Fox summary\n")
    );
}

#[test]
fn profile_buttons() {
    let rows = components(false, false);
    assert_eq!(rows.len(), 1);
    let ids: Vec<&str> = rows[0].iter().map(|b| b.custom_id.as_str()).collect();
    assert_eq!(ids, vec!["character-image", "character-description", "character-delete", "character-menu-open"]);
    let rows = components(true, true);
    assert_eq!(rows.len(), 2);
    let ids: Vec<&str> = rows[0].iter().map(|b| b.custom_id.as_str()).collect();
    assert_eq!(ids, vec!["character-fetish", "character-image-nsfw", "character-description", "character-delete", "character-menu-close"]);
    let ids: Vec<&str> = rows[1].iter().map(|b| b.custom_id.as_str()).collect();
    assert_eq!(ids, vec!["character-add-prefix", "character-add-image", "character-add-icon", "character-add-fetish", "character-edit"]);
    assert_eq!(rows[0][3].style, ButtonStyle::Danger);
}

fn image(url: &str, nsfw: bool, favourite: bool) -> CharacterImage {
    CharacterImage { url: url.to_string(), nsfw, favourite }
}

#[test]
fn images_picked_from_favourites_first() {
    let images = vec![image("a", false, false), image("b", false, true), image("c", true, false), image("d", false, true)];
    assert_eq!(image_pool(&images, false), vec!["b", "d"]);
    assert_eq!(image_pool(&images, true), vec!["c"]);
    assert!(image_pool(&vec![], true).is_empty());
    for _ in 0..10 {
        let r = character_response(&profile("Nyx"), &images, false, "Owner", "av", 5);
        let url = r.embeds[0].image_url.clone().unwrap();
        assert!(url == "b" || url == "d");
    }
    let r = character_response(&profile("Nyx"), &vec![], false, "Owner", "av", 5);
    assert_eq!(r.embeds[0].image_url, None);
}

#[test]
fn profile_embed() {
    let mut c = profile("Nyx");
    c.nsfw_summary = Some("spicy".to_string());
    c.prefix = Some("n:".to_string());
    c.nsfw_icon = Some("nsfw icon".to_string());
    let e = character_embed_with(&c, Some("img".to_string()), true, "Owner", "av", 5);
    let fields: Vec<(&str, &str, bool)> = e.fields.iter().map(|f| (f.name.as_str(), f.value.as_str(), f.inline)).collect();
    assert_eq!(fields, vec![("NSFW Summary", "spicy", true), ("SFW Summary", "Nyx summary", true), ("Prefix", "`n:`", false)]);
    assert_eq!(e.author_name.as_deref(), Some("Nyx - [Owner]"));
    assert_eq!(e.colour, Some(5));
    assert_eq!(e.thumbnail_url.as_deref(), Some("nsfw icon"));
    assert_eq!(e.image_url.as_deref(), Some("img"));
    let e = character_embed_with(&c, None, false, "Owner", "av", 5);
    assert_eq!(e.fields.len(), 2);
    assert_eq!(e.thumbnail_url.as_deref(), Some("icon"));
}

#[test]
fn cycle_and_component_buttons() {
    let r = character_cycle_image(&None, "Nyx", &vec![], Some(true), "Owner", "av", 5);
    assert_eq!(
        r.content.as_deref(),
        Some("Sorry, could not find the character Nyx in my database. The user might have deleted this profile, sorry!")
    );
    assert!(r.ephemeral);
    let r = character_cycle_image(&Some(profile("Nyx")), "Nyx", &vec![], Some(true), "Owner", "av", 5);
    assert!(r.update);
    assert_eq!(r.components[0][0].custom_id, "character-fetish");
    assert_eq!(Command::handle_component("character-edit").unwrap_err(), CharacterError::NotComponent);
    let cmd = Command::Profile(ProfileCommand { name: "Nyx".to_string(), nsfw: None, user: None });
    assert_eq!(cmd.character_name(), "Nyx");
}

#[test]
fn profile_command() {
    let cmd = ProfileCommand { name: "Zed".to_string(), nsfw: Some(true), user: None };
    assert_eq!(cmd.profile_kind(Some(false)), None);
    let owner = ProfileOwner { user_id: 3, name: "Owner".to_string(), avatar: "av".to_string() };
    let r = cmd.respond(false, &owner, &None, &vec![profile("Nyx")], &vec![], 1);
    assert!(r.content.unwrap().starts_with("I'm afraid that user <@3> has no characters with the name `Zed`!"));
    let r = cmd.respond(false, &owner, &Some(profile("Zed")), &vec![], &vec![], 1);
    assert_eq!(r.embeds[0].author_name.as_deref(), Some("Zed - [Owner]"));
}

fn classic(short: &str, fetishes: Vec<(usize, Fetish)>) -> ClassicCharacter {
    ClassicCharacter {
        short_description: short.to_string(),
        description: "long".to_string(),
        nsfw_description: Some("lewd".to_string()),
        fetishes: fetishes.into_iter().collect(),
    }
}

fn fetish(category: FetishCategory, description: &str) -> Fetish {
    Fetish { category, description: description.to_string() }
}

#[test]
fn layout_hands_on_rows_it_begins() {
    let b = |i: usize| Button { custom_id: format!("b{i}"), label: String::new(), style: ButtonStyle::Secondary };
    assert!(button_rows(vec![]).is_empty());
    let rows = button_rows(vec![b(0)]);
    assert_eq!(rows.len(), 1);
    assert!(rows[0].is_empty());
    let rows = button_rows((0..7).map(b).collect());
    assert_eq!(rows.len(), 2);
    assert!(rows[0].is_empty());
    let ids: Vec<&str> = rows[1].iter().map(|x| x.custom_id.as_str()).collect();
    assert_eq!(ids, vec!["b0", "b1", "b2", "b3", "b4"]);
    let rows = button_rows((0..40).map(b).collect());
    assert_eq!(rows.len(), 6);
    assert_eq!(rows[5][4].custom_id, "b24");
}

#[test]
fn classic_profile() {
    let user = ClassicUser {
        name: "Owner".to_string(),
        avatar: "av".to_string(),
        characters: vec![("Nyx".to_string(), classic("short", vec![(1, fetish(FetishCategory::Love, "x"))]))],
    };
    let p = Profile { name: "Nyx".to_string(), nsfw: Some(true), user: None };
    assert_eq!(p.owner(Some(4)), Some(4));
    let r = p.run_command(4, &user, Some(false), EmbedData::new());
    assert_eq!(r.content.as_deref(), Some("You can't get a NSFW profile in a SFW channel, dork!"));
    let r = p.run_command(4, &user, Some(true), EmbedData::new());
    let e = &r.embeds[0];
    assert_eq!(e.title.as_deref(), Some("Character Profile - Nyx"));
    assert_eq!(e.description.as_deref(), Some("short\n- **Description:**\nlong\n- **NSFW Description:**\nlewd\n"));
    assert_eq!(e.author_name.as_deref(), Some("Profile by Owner"));
    assert_eq!(r.components.len(), 1);
    assert!(r.components[0].is_empty());
    let empty = ClassicUser { name: "Owner".to_string(), avatar: "av".to_string(), characters: vec![] };
    let r = p.run_command(4, &empty, None, EmbedData::new());
    assert_eq!(r.content.as_deref(), Some("Sorry, <@4> has no character profiles configured!"));
    let q = Profile { name: "Zed".to_string(), nsfw: None, user: None };
    let r = q.run_command(4, &user, None, EmbedData::new());
    assert_eq!(
        r.content.as_deref(),
        Some("I'm afraid that user <@4> has no characters with the name `Zed`! They do however, have the following profiles configured...\n- Nyx: short\n")
    );
}

#[test]
fn classic_fetish_add() {
    let user = ClassicUser {
        name: "Owner".to_string(),
        avatar: "av".to_string(),
        characters: vec![(
            "Nyx".to_string(),
            classic("short", vec![(1, fetish(FetishCategory::Favourite, "pats")), (2, fetish(FetishCategory::Love, "hugs"))]),
        )],
    };
    let add = Add { name: "Nyx".to_string(), fetish: FetishCategory::Like, description: "boops".to_string() };
    let out = add.run_command(4, user, EmbedData::new());
    let record = out.record.unwrap();
    let fs: Vec<(usize, &str)> = record.characters[0].1.fetishes.iter().map(|(k, f)| (*k, f.description.as_str())).collect();
    assert_eq!(fs, vec![(1, "pats"), (2, "hugs"), (3, "boops")]);
    let e = &out.reply.embeds[0];
    let fields: Vec<(&str, &str)> = e.fields.iter().map(|f| (f.name.as_str(), f.value.as_str())).collect();
    assert_eq!(fields, vec![("Favourites", "- 1: pats\n"), ("Love", "- 1: pats\n"), ("Like", "- 1: pats\n")]);
    assert!(out.reply.ephemeral);
    let none = ClassicUser { name: "Owner".to_string(), avatar: "av".to_string(), characters: vec![] };
    let add = Add { name: "Nyx".to_string(), fetish: FetishCategory::Like, description: "boops".to_string() };
    let out = add.run_command(4, none, EmbedData::new());
    assert!(out.record.is_none());
    assert_eq!(out.reply.content.as_deref(), Some("Hey <@4>, you must add a character first!!"));
}

#[test]
fn fetish_number_overwrites_an_existing_one() {
    let user = ClassicUser {
        name: "Owner".to_string(),
        avatar: "av".to_string(),
        characters: vec![("Nyx".to_string(), classic("short", vec![(2, fetish(FetishCategory::Hate, "old"))]))],
    };
    let add = Add { name: "Nyx".to_string(), fetish: FetishCategory::Limit, description: "new".to_string() };
    let out = add.run_command(4, user, EmbedData::new());
    let record = out.record.unwrap();
    let fs: Vec<(usize, &str)> = record.characters[0].1.fetishes.iter().map(|(k, f)| (*k, f.description.as_str())).collect();
    assert_eq!(fs, vec![(2, "new")]);
}

#[test]
fn fetishes_are_listed_by_number() {
    let user = ClassicUser {
        name: "Owner".to_string(),
        avatar: "av".to_string(),
        characters: vec![(
            "Nyx".to_string(),
            classic("short", vec![(5, fetish(FetishCategory::Favourite, "late")), (1, fetish(FetishCategory::Favourite, "early"))]),
        )],
    };
    let add = Add { name: "Nyx".to_string(), fetish: FetishCategory::Favourite, description: "third".to_string() };
    let out = add.run_command(4, user, EmbedData::new());
    let e = &out.reply.embeds[0];
    assert_eq!(e.fields.len(), 1);
    assert_eq!(e.fields[0].value, "- 1: early\n- 3: third\n- 5: late\n");
}

#[test]
fn fetish_create() {
    let c = Create {
        character: "Nyx".to_string(),
        category: FetishCategory::Love,
        name: "Hugs".to_string(),
        description: "big ones".to_string(),
    };
    let rec = c.record(4, 12);
    assert_eq!((rec.character_name.as_str(), rec.user_id, rec.fetish_id), ("Nyx", 4, 12));
    assert_eq!(rec.category, FetishCategory::Love);
    let heading = c.heading(EmbedData::new(), "Owner", "av");
    assert_eq!(heading.title.as_deref(), Some("Character Profile - Hugs"));
    let fs = vec![
        CharacterFetish { character_name: "Nyx".into(), user_id: 4, fetish_id: 1, category: FetishCategory::Love, name: "Hugs".into(), description: "big".into() },
        CharacterFetish { character_name: "Nyx".into(), user_id: 4, fetish_id: 2, category: FetishCategory::Limit, name: "Gore".into(), description: "no".into() },
    ];
    let r = fetish_reply(heading, &fs);
    let fields: Vec<(&str, &str)> = r.embeds[0].fields.iter().map(|f| (f.name.as_str(), f.value.as_str())).collect();
    assert_eq!(fields, vec![("Love", "- `1`: Hugs - big\n"), ("Limits", "- `2`: Gore - no\n")]);
    assert!(r.ephemeral);
    assert_eq!(c.lookup_name(), "Nyx");
    let r = c.not_found(4, &vec![]);
    assert!(r.content.unwrap().contains("no characters with the name `Nyx`"));
}
