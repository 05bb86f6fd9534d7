//! `/character img`: add a character's images, or get one.
use vstd::prelude::*;
use crate::response::{opt_view, ButtonStyle, ButtonView};
use crate::text::{dec_int, dec_nat};

pub mod add;
pub mod get;

verus! {

/// A stored image of a character.
#[derive(Clone, Debug)]
pub struct StoredImage {
    pub img_id: i64,
    pub name: String,
    pub nsfw: bool,
    pub owner_id: i64,
    pub source: Option<String>,
    pub url: String,
    pub character_name: String,
    pub favourite: bool,
}

/// `/character img`: get or modify your character's images.
#[derive(Debug)]
pub enum Command {
    Add(add::Command),
    Get(get::Command),
}

/// The heading of an image's embed: the author of the profile.
pub open spec fn profile_by(author_name: Seq<char>) -> Seq<char> {
    "Profile by "@ + author_name
}

/// The images of one kind, in order.
pub open spec fn images_of(images: Seq<StoredImage>, nsfw: bool, favourite: bool) -> Seq<StoredImage>
    decreases images.len(),
{
    if images.len() == 0 {
        seq![]
    } else if images.last().nsfw == nsfw && images.last().favourite == favourite {
        images_of(images.drop_last(), nsfw, favourite).push(images.last())
    } else {
        images_of(images.drop_last(), nsfw, favourite)
    }
}

/// The footer of an image: its ID and how many images of each kind there
/// are, favourites in brackets.
pub open spec fn image_footer(img_id: i64, images: Seq<StoredImage>) -> Seq<char> {
    "Image ID: "@ + dec_int(img_id as int) + " | Total SFW Images: "@ + dec_nat(images_of(images, false, false).len())
        + " ("@ + dec_nat(images_of(images, false, true).len()) + "F) | Total NSFW Images: "@
        + dec_nat(images_of(images, true, false).len()) + " ("@ + dec_nat(images_of(images, true, true).len()) + "F)"@
}

/// The buttons under an image: more NSFW images (for an NSFW one), and more
/// SFW ones.
pub open spec fn image_buttons(nsfw: bool) -> Seq<ButtonView> {
    (if nsfw {
        seq![ButtonView { custom_id: "character-image-nsfw"@, label: "More NSFW!"@, style: ButtonStyle::Secondary }]
    } else {
        seq![]
    }) + seq![ButtonView { custom_id: "character-image-sfw"@, label: "More SFW!"@, style: ButtonStyle::Secondary }]
}

pub(crate) fn images_of_exec(images: &Vec<StoredImage>, nsfw: bool, favourite: bool) -> (r: Vec<StoredImage>)
    ensures
        r@.len() == images_of(images@, nsfw, favourite).len(),
        forall|i: int| 0 <= i < r@.len() ==> {
            &&& (#[trigger] r@[i]).nsfw == images_of(images@, nsfw, favourite)[i].nsfw
            &&& r@[i].favourite == images_of(images@, nsfw, favourite)[i].favourite
            &&& r@[i].img_id == images_of(images@, nsfw, favourite)[i].img_id
            &&& r@[i].name@ == images_of(images@, nsfw, favourite)[i].name@
            &&& r@[i].url@ == images_of(images@, nsfw, favourite)[i].url@
            &&& opt_view(r@[i].source) == opt_view(images_of(images@, nsfw, favourite)[i].source)
        },
{
    let mut r: Vec<StoredImage> = Vec::new();
    let n = images.len();
    for k in 0..n
        invariant
            n == images@.len(),
            r@.len() == images_of(images@.take(k as int), nsfw, favourite).len(),
            forall|i: int| 0 <= i < r@.len() ==> {
                &&& (#[trigger] r@[i]).nsfw == images_of(images@.take(k as int), nsfw, favourite)[i].nsfw
                &&& r@[i].favourite == images_of(images@.take(k as int), nsfw, favourite)[i].favourite
                &&& r@[i].img_id == images_of(images@.take(k as int), nsfw, favourite)[i].img_id
                &&& r@[i].name@ == images_of(images@.take(k as int), nsfw, favourite)[i].name@
                &&& r@[i].url@ == images_of(images@.take(k as int), nsfw, favourite)[i].url@
                &&& opt_view(r@[i].source) == opt_view(images_of(images@.take(k as int), nsfw, favourite)[i].source)
            },
    {
        assert(images@.take(k + 1).drop_last() =~= images@.take(k as int));
        if images[k].nsfw == nsfw && images[k].favourite == favourite {
            let img = &images[k];
            let copy = StoredImage {
                img_id: img.img_id,
                name: img.name.clone(),
                nsfw: img.nsfw,
                owner_id: img.owner_id,
                source: match &img.source { Some(s) => Some(s.clone()), None => None },
                url: img.url.clone(),
                character_name: img.character_name.clone(),
                favourite: img.favourite,
            };
            r.push(copy);
        }
    }
    assert(images@.take(n as int) =~= images@);
    r
}

pub(crate) fn count_of(images: &Vec<StoredImage>, nsfw: bool, favourite: bool) -> (c: usize)
    ensures
        c == images_of(images@, nsfw, favourite).len(),
{
    let mut c: usize = 0;
    let n = images.len();
    for k in 0..n
        invariant
            n == images@.len(),
            c == images_of(images@.take(k as int), nsfw, favourite).len(),
            c <= k,
    {
        assert(images@.take(k + 1).drop_last() =~= images@.take(k as int));
        if images[k].nsfw == nsfw && images[k].favourite == favourite {
            c = c + 1;
        }
    }
    assert(images@.take(n as int) =~= images@);
    c
}

/// The shown image, picked from `pool`: one of them, or nothing from an
/// empty pool.
pub open spec fn picked_image(pool: Seq<StoredImage>, picked: Option<StoredImage>) -> bool {
    &&& (picked is None <==> pool.len() == 0)
    &&& (picked matches Some(p) ==> exists|i: int| 0 <= i < pool.len() && #[trigger] pool[i].img_id == p.img_id
        && pool[i].name@ == p.name@ && pool[i].url@ == p.url@ && opt_view(pool[i].source) == opt_view(p.source))
}

} // verus!
