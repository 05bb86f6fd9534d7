use luro::character::images::add::Command as Add;
use luro::character::images::get::Command as Get;
use luro::character::images::StoredImage;
use luro::character::proxy::Command as Proxy;
use luro::character::send::Command as Send;
use luro::character::CharacterProfile;
use luro::heck::{Heck, HeckSomeoneCommand, HeckUserCommand};
use luro::response::EmbedData;

fn stored(id: i64, nsfw: bool, favourite: bool) -> StoredImage {
    StoredImage {
        img_id: id,
        name: format!("img {id}"),
        nsfw,
        owner_id: 1,
        source: None,
        url: format!("https://img/{id}"),
        character_name: "Nyx".to_string(),
        favourite,
    }
}

fn character() -> CharacterProfile {
    CharacterProfile {
        user_id: 1,
        colour: Some(7),
        nickname: Some("Nyxie".to_string()),
        name: "Nyx".to_string(),
        nsfw_description: None,
        nsfw_icon: Some("nsfw icon".to_string()),
        nsfw_summary: None,
        prefix: None,
        sfw_description: "d".to_string(),
        sfw_icon: "icon".to_string(),
        sfw_summary: "s".to_string(),
    }
}

#[test]
fn image_add_confirmation() {
    let add = Add {
        character: "Nyx".to_string(),
        name: "Beach".to_string(),
        url: "https://beach".to_string(),
        nsfw: false,
        fav: true,
        overwrite: None,
        source: Some("https://artist".to_string()),
    };
    let img = add.image(42);
    assert_eq!((img.img_id, img.owner_id, img.favourite), (0, 42, true));
    assert!(!add.overwrites());
    let r = Add::added(&img, EmbedData::new(), "Owner", "av");
    let e = &r.embeds[0];
    assert_eq!(e.footer_text.as_deref(), Some("Image ID: 0"));
    assert_eq!(e.url.as_deref(), Some("https://artist"));
    assert_eq!(e.title.as_deref(), Some("Beach"));
    assert_eq!(e.author_name.as_deref(), Some("Profile by Owner"));
    assert!(r.ephemeral);
}

#[test]
fn image_get_picks_and_counts() {
    let images = vec![stored(1, false, false), stored(2, false, true), stored(3, true, false), stored(4, false, false)];
    let get = Get { character: "Nyx".to_string(), id: None, nsfw: None, fav: None };
    assert!(!get.kind(None));
    assert!(get.kind(Some(true)));
    for _ in 0..10 {
        let picked = get.pick(&images, false).unwrap();
        assert!(picked.img_id == 1 || picked.img_id == 4);
    }
    let favs = Get { character: "Nyx".to_string(), id: None, nsfw: Some(true), fav: Some(true) };
    assert!(favs.pick(&images, true).is_none());
    let r = Get::reply(&Some(stored(2, false, true)), &images, true, 9, "Owner", "av", 5);
    let e = &r.embeds[0];
    assert_eq!(
        e.footer_text.as_deref(),
        Some("Image ID: 2 | Total SFW Images: 2 (1F) | Total NSFW Images: 1 (0F)")
    );
    let ids: Vec<&str> = r.components[0].iter().map(|b| b.custom_id.as_str()).collect();
    assert_eq!(ids, vec!["character-image-nsfw", "character-image-sfw"]);
    let r = Get::reply(&None, &images, false, 9, "Owner", "av", 5);
    assert_eq!(r.content.as_deref(), Some("Sorry, <@9> has no images configured for this character!"));
}

#[test]
fn sending_as_a_character() {
    let (name, avatar) = Send::webhook_identity(&character(), "Owner", Some(true));
    assert_eq!((name.as_str(), avatar.as_str()), ("Nyx [Owner]", "nsfw icon"));
    let (_, avatar) = Send::webhook_identity(&character(), "Owner", None);
    assert_eq!(avatar, "icon");
    assert_eq!(Send::mirrored().content.as_deref(), Some("Mirrored!"));
    let send = Send { name: "Nyx".to_string(), message: "hi all".to_string() };
    let r = send.fallback(&character(), "Owner", Some(false), 3);
    let e = &r.embeds[0];
    assert_eq!(e.author_name.as_deref(), Some("Nyxie [Owner]"));
    assert_eq!(e.colour, Some(7));
    assert_eq!(e.description.as_deref(), Some("hi all"));
}

#[test]
fn proxy_prefix() {
    let p = Proxy { name: "Nyx".to_string(), prefix: "n:".to_string(), remove: None };
    let (c, r) = p.apply(character(), None, 3);
    assert_eq!(c.prefix.as_deref(), Some("n:"));
    assert_eq!(r.embeds[0].author_name.as_deref(), Some("Nyx"));
    assert!(r.ephemeral);
    let p = Proxy { name: "Nyx".to_string(), prefix: "n:".to_string(), remove: Some(true) };
    let (c, r) = p.apply(c, None, 3);
    assert_eq!(c.prefix, None);
    assert_eq!(r.content.as_deref(), Some("Prefix `n:` removed from character Nyx!"));
    let r = p.not_found(4, &vec![character()]);
    assert_eq!(
        r.content.as_deref(),
        Some("I'm afraid that <@4> has no characters with the name `Nyx`! They do however, have the following profiles configured...\n- Nyx: s\n")
    );
}

#[test]
fn hecking_someone() {
    let heck = Heck { heck_message: "<author> pats <user>".to_string(), author_id: 3 };
    let cmd = HeckSomeoneCommand { user: 2, global: true, id: None, plaintext: Some(true) };
    let r = cmd.respond(&heck, 1, 9, false, 5, "Writer", "av");
    assert_eq!(r.content.as_deref(), Some("<@9> pats <@2>"));
    let cmd = HeckUserCommand { user: 2, id: None, plaintext: None };
    let r = cmd.run(&heck, 1, 9, true, 5, "Writer", "av");
    assert_eq!(r.content.as_deref(), Some("<@2>"));
    assert_eq!(r.embeds[0].description.as_deref(), Some("<@9> pats <@2>"));
    assert_eq!(r.embeds[0].footer_text.as_deref(), Some("Heck ID 1 - NSFW Heck"));
}
