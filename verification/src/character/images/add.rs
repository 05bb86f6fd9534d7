//! `/character img add`: set the primary image for this character.
use vstd::prelude::*;
use crate::character::images::{profile_by, StoredImage};
use crate::character::{character_not_found, not_found_text, CharacterProfile};
use crate::response::{empty_reply, opt_view, EmbedData, EmbedView, Reply, ReplyView};
use crate::text::{dec_int, push_dec_i64, push_str, string_of};

verus! {

/// `/character img add`: set the primary image for this character.
#[derive(Debug)]
pub struct Command {
    /// The character to get
    pub character: String,
    /// The name of the image
    pub name: String,
    /// The URL the image should be set to
    pub url: String,
    /// Is this a NSFW image?
    pub nsfw: bool,
    /// Do you want this image to show up as one of the main images in your profile?
    pub fav: bool,
    /// Overwrite an image by ID
    pub overwrite: Option<i64>,
    /// The source URL for the image
    pub source: Option<String>,
}

impl Command {
    /// The answer when the author has no character called by the image's
    /// name, which is what the character is looked up by.
    pub fn not_found(&self, author_id: u64, characters: &Vec<CharacterProfile>) -> (r: Reply)
        ensures
            r@ == (ReplyView { content: Some(not_found_text(author_id, self.name@, characters@)), ephemeral: true, ..empty_reply() }),
    {
        character_not_found(author_id, self.name.as_str(), characters)
    }

    /// The image to store: the ID to overwrite (0 for a new image), the
    /// author as owner.
    pub fn image(&self, author_id: u64) -> (img: StoredImage)
        ensures
            img.img_id == match self.overwrite { Some(i) => i, None => 0 },
            img.name@ == self.name@,
            img.nsfw == self.nsfw,
            img.owner_id == author_id as i64,
            opt_view(img.source) == opt_view(self.source),
            img.url@ == self.url@,
            img.character_name@ == self.character@,
            img.favourite == self.fav,
    {
        StoredImage {
            img_id: match self.overwrite { Some(i) => i, None => 0 },
            name: self.name.clone(),
            nsfw: self.nsfw,
            owner_id: author_id as i64,
            source: match &self.source { Some(s) => Some(s.clone()), None => None },
            url: self.url.clone(),
            character_name: self.character.clone(),
            favourite: self.fav,
        }
    }

    /// Whether the stored image is written: only when one is overwritten.
    pub fn overwrites(&self) -> (b: bool)
        ensures
            b == self.overwrite is Some,
    {
        self.overwrite.is_some()
    }

    /// The confirmation, to the author alone: the image with its ID, linked
    /// to its source, titled by its name when it has one.
    pub fn added(img: &StoredImage, base: EmbedData, author_name: &str, author_avatar: &str) -> (r: Reply)
        ensures
            r@ == (ReplyView {
                embeds: seq![EmbedView {
                    footer_text: Some("Image ID: "@ + dec_int(img.img_id as int)),
                    image_url: Some(img.url@),
                    author_name: Some(profile_by(author_name@)),
                    author_icon_url: Some(author_avatar@),
                    url: match img.source { Some(s) => Some(s@), None => base@.url },
                    title: if img.name@.len() > 0 { Some(img.name@) } else { base@.title },
                    ..base@
                }],
                ephemeral: true,
                ..empty_reply()
            }),
    {
        let mut e = base;
        let mut footer = string_of("Image ID: ");
        push_dec_i64(&mut footer, img.img_id);
        e.footer_text = Some(footer);
        e.image_url = Some(img.url.clone());
        let mut author = string_of("Profile by ");
        push_str(&mut author, author_name);
        e.author_name = Some(author);
        e.author_icon_url = Some(string_of(author_avatar));
        if let Some(source) = &img.source {
            e.url = Some(source.clone());
        }
        if img.name.as_str().unicode_len() != 0 {
            e.title = Some(img.name.clone());
        }
        let mut r = Reply::new();
        let ghost ev = e@;
        r.embeds.push(e);
        r.ephemeral = true;
        assert(r@.embeds =~= seq![ev]);
        r
    }
}

} // verus!
