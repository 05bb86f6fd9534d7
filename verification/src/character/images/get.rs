//! `/character img get`: get an image relating to a character.
use vstd::prelude::*;
use crate::character::choose_one;
use crate::character::images::{count_of, image_buttons, image_footer, images_of, images_of_exec, picked_image, profile_by, StoredImage};
use crate::response::{empty_embed, empty_reply, opt_view, row_view, Button, ButtonStyle, EmbedData, EmbedView, Reply, ReplyView};
use crate::text::{dec_nat, push_dec_i64, push_dec_u64, push_str, string_of};

verus! {

/// `/character img get`: get an image relating to a character.
#[derive(Debug)]
pub struct Command {
    /// The character to get
    pub character: String,
    /// The image ID to get
    pub id: Option<i64>,
    /// Is this a NSFW image?
    pub nsfw: Option<bool>,
    /// Do you just want to get favs?
    pub fav: Option<bool>,
}

impl Command {
    /// Whether the image is NSFW: as asked, else as the channel is.
    pub fn kind(&self, channel_nsfw: Option<bool>) -> (nsfw: bool)
        ensures
            nsfw == match self.nsfw { Some(n) => n, None => channel_nsfw == Some(true) },
    {
        match self.nsfw {
            Some(n) => n,
            None => channel_nsfw == Some(true),
        }
    }

    /// An image picked at random among the favourites or the other images
    /// of the kind, as asked.
    pub fn pick(&self, images: &Vec<StoredImage>, nsfw: bool) -> (r: Option<StoredImage>)
        ensures
            picked_image(images_of(images@, nsfw, self.fav == Some(true)), r),
    {
        let pool = images_of_exec(images, nsfw, self.fav == Some(true));
        let picked = choose_one(&pool);
        match picked {
            Some(img) => {
                proof {
                    assert(pool@.contains(*img));
                    let i = choose|i: int| 0 <= i < pool@.len() && pool@[i] == *img;
                    assert(pool@[i].img_id == images_of(images@, nsfw, self.fav == Some(true))[i].img_id);
                }
                Some(StoredImage {
                    img_id: img.img_id,
                    name: img.name.clone(),
                    nsfw: img.nsfw,
                    owner_id: img.owner_id,
                    source: match &img.source { Some(s) => Some(s.clone()), None => None },
                    url: img.url.clone(),
                    character_name: img.character_name.clone(),
                    favourite: img.favourite,
                })
            },
            None => None,
        }
    }

    /// The answer for the image found (by ID, or picked): the image, its ID
    /// and the counts of the character's images, with buttons for more; or,
    /// with none, that there are no images.
    pub fn reply(
        selected: &Option<StoredImage>,
        images: &Vec<StoredImage>,
        nsfw: bool,
        author_id: u64,
        author_name: &str,
        author_avatar: &str,
        accent: u32,
    ) -> (r: Reply)
        ensures
            *selected is None ==> r@ == (ReplyView {
                content: Some("Sorry, <@"@ + dec_nat(author_id as nat) + "> has no images configured for this character!"@),
                ephemeral: true,
                ..empty_reply()
            }),
            *selected matches Some(img) ==> r@ == (ReplyView {
                embeds: seq![EmbedView {
                    colour: Some(accent),
                    footer_text: Some(image_footer(img.img_id, images@)),
                    title: Some(img.name@),
                    image_url: Some(img.url@),
                    author_name: Some(profile_by(author_name@)),
                    author_icon_url: Some(author_avatar@),
                    url: opt_view(img.source),
                    ..empty_embed()
                }],
                components: seq![image_buttons(nsfw)],
                ..empty_reply()
            }),
    {
        match selected {
            None => {
                let mut s = string_of("Sorry, <@");
                push_dec_u64(&mut s, author_id);
                push_str(&mut s, "> has no images configured for this character!");
                Reply { content: Some(s), ephemeral: true, ..Reply::new() }
            },
            Some(img) => {
                let mut footer = string_of("Image ID: ");
                push_dec_i64(&mut footer, img.img_id);
                push_str(&mut footer, " | Total SFW Images: ");
                push_dec_u64(&mut footer, count_of(images, false, false) as u64);
                push_str(&mut footer, " (");
                push_dec_u64(&mut footer, count_of(images, false, true) as u64);
                push_str(&mut footer, "F) | Total NSFW Images: ");
                push_dec_u64(&mut footer, count_of(images, true, false) as u64);
                push_str(&mut footer, " (");
                push_dec_u64(&mut footer, count_of(images, true, true) as u64);
                push_str(&mut footer, "F)");
                assert(footer@ =~= image_footer(img.img_id, images@));
                let mut e = EmbedData::new();
                e.colour = Some(accent);
                e.footer_text = Some(footer);
                e.title = Some(img.name.clone());
                e.image_url = Some(img.url.clone());
                let mut author = string_of("Profile by ");
                push_str(&mut author, author_name);
                e.author_name = Some(author);
                e.author_icon_url = Some(string_of(author_avatar));
                e.url = match &img.source { Some(s) => Some(s.clone()), None => None };
                let mut row: Vec<Button> = Vec::new();
                if nsfw {
                    row.push(Button::new("character-image-nsfw", "More NSFW!", ButtonStyle::Secondary));
                }
                row.push(Button::new("character-image-sfw", "More SFW!", ButtonStyle::Secondary));
                assert(row_view(row@) =~= image_buttons(nsfw));
                let mut r = Reply::new();
                let ghost ev = e@;
                r.embeds.push(e);
                r.components.push(row);
                assert(r@.embeds =~= seq![ev]);
                assert(r@.components =~= seq![image_buttons(nsfw)]);
                r
            },
        }
    }
}

} // verus!
