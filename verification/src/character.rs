//! `/character`: character profiles — showing them, editing them through a
//! form, suggesting their names, and their images and fetishes.
use rand::seq::SliceRandom;
use vstd::prelude::*;
use crate::response::{
    empty_embed, empty_reply, opt_view, row_view, Button, ButtonStyle, ButtonView, EmbedData, EmbedFieldView,
    EmbedView, Reply, ReplyView,
};
use crate::info_command::rows_view;
use crate::text::{contains_str, dec_nat, has_substring, push_dec_u64, push_str, string_of};

pub mod classic;
pub mod fetish;
pub mod images;
pub mod profile;
pub mod proxy;
pub mod send;

verus! {

/// A character profile.
#[derive(Clone, Debug)]
pub struct CharacterProfile {
    pub user_id: u64,
    pub colour: Option<u32>,
    pub nickname: Option<String>,
    pub name: String,
    pub nsfw_description: Option<String>,
    pub nsfw_icon: Option<String>,
    pub nsfw_summary: Option<String>,
    pub prefix: Option<String>,
    pub sfw_description: String,
    pub sfw_icon: String,
    pub sfw_summary: String,
}

/// The values of the character form; the NSFW ones may be left out.
#[derive(Debug)]
pub struct CharacterForm {
    pub name: String,
    pub sfw_icon: String,
    pub sfw_summary: String,
    pub nsfw_summary: Option<String>,
    pub sfw_description: String,
    pub nsfw_description: Option<String>,
}

/// The profile the form makes: an existing profile takes the new SFW
/// summary and description, and the NSFW ones only where given; otherwise a
/// new profile of the author with the form's values.
pub open spec fn merged_profile(existing: Option<CharacterProfile>, form: CharacterForm, author_id: u64) -> CharacterProfile {
    match existing {
        Some(c) => CharacterProfile {
            sfw_description: form.sfw_description,
            sfw_summary: form.sfw_summary,
            nsfw_description: match form.nsfw_description { Some(d) => Some(d), None => c.nsfw_description },
            nsfw_summary: match form.nsfw_summary { Some(s) => Some(s), None => c.nsfw_summary },
            ..c
        },
        None => CharacterProfile {
            user_id: author_id,
            colour: None,
            nickname: None,
            name: form.name,
            nsfw_description: form.nsfw_description,
            nsfw_icon: None,
            nsfw_summary: form.nsfw_summary,
            prefix: None,
            sfw_description: form.sfw_description,
            sfw_icon: form.sfw_icon,
            sfw_summary: form.sfw_summary,
        },
    }
}

/// The profile the character form makes of `existing`, the profile of that
/// name if there is one.
pub fn merge_profile(existing: Option<CharacterProfile>, form: CharacterForm, author_id: u64) -> (c: CharacterProfile)
    ensures
        c == merged_profile(existing, form, author_id),
        existing matches Some(e) ==> c.nsfw_description == (match form.nsfw_description {
            Some(d) => Some(d),
            None => e.nsfw_description,
        }) && c.nsfw_summary == (match form.nsfw_summary {
            Some(s) => Some(s),
            None => e.nsfw_summary,
        }),
{
    match existing {
        Some(mut c) => {
            c.sfw_description = form.sfw_description;
            c.sfw_summary = form.sfw_summary;
            if let Some(d) = form.nsfw_description {
                c.nsfw_description = Some(d);
            }
            if let Some(s) = form.nsfw_summary {
                c.nsfw_summary = Some(s);
            }
            c
        },
        None => CharacterProfile {
            user_id: author_id,
            colour: None,
            nickname: None,
            name: form.name,
            nsfw_description: form.nsfw_description,
            nsfw_icon: None,
            nsfw_summary: form.nsfw_summary,
            prefix: None,
            sfw_description: form.sfw_description,
            sfw_icon: form.sfw_icon,
            sfw_summary: form.sfw_summary,
        },
    }
}

/// What the name option holds while a command is being typed.
#[derive(Debug)]
pub enum AutocompleteValue {
    /// Nothing typed yet.
    Unset,
    /// Being typed, with what is there so far.
    Focused(String),
    /// Already given.
    Completed(String),
}

/// `/character` name suggestions.
#[derive(Debug)]
pub struct CharacterNameAutocomplete {
    pub name: AutocompleteValue,
}

/// The names of the characters that hold `input`, in order.
pub open spec fn names_holding(names: Seq<Seq<char>>, input: Seq<char>) -> Seq<Seq<char>>
    decreases names.len(),
{
    if names.len() == 0 {
        seq![]
    } else if has_substring(names.last(), input) {
        names_holding(names.drop_last(), input).push(names.last())
    } else {
        names_holding(names.drop_last(), input)
    }
}

/// The names of the profiles.
pub open spec fn profile_names(cs: Seq<CharacterProfile>) -> Seq<Seq<char>> {
    cs.map_values(|c: CharacterProfile| c.name@)
}

/// The suggestions: every character's name when nothing is typed, those
/// holding the typed text while typing, none once the name is given.
pub open spec fn suggestions_spec(value: AutocompleteValue, cs: Seq<CharacterProfile>) -> Seq<Seq<char>> {
    match value {
        AutocompleteValue::Unset => profile_names(cs),
        AutocompleteValue::Focused(input) => names_holding(profile_names(cs), input@),
        AutocompleteValue::Completed(_) => seq![],
    }
}

impl CharacterNameAutocomplete {
    /// The names to suggest among the author's characters; each is offered
    /// as both the choice's name and its value.
    pub fn suggestions(&self, characters: &Vec<CharacterProfile>) -> (r: Vec<String>)
        ensures
            crate::text::strings_view(r@) == suggestions_spec(self.name, characters@),
    {
        let mut r: Vec<String> = Vec::new();
        match &self.name {
            AutocompleteValue::Completed(_) => {
                assert(crate::text::strings_view(r@) =~= seq![]);
                return r;
            },
            _ => {},
        }
        let n = characters.len();
        for i in 0..n
            invariant
                n == characters@.len(),
                !(self.name is Completed),
                crate::text::strings_view(r@) == match self.name {
                    AutocompleteValue::Focused(input) => names_holding(profile_names(characters@.take(i as int)), input@),
                    _ => profile_names(characters@.take(i as int)),
                },
        {
            let ghost names = profile_names(characters@.take(i + 1));
            assert(names.drop_last() =~= profile_names(characters@.take(i as int)));
            assert(names.last() == characters@[i as int].name@);
            let keep = match &self.name {
                AutocompleteValue::Focused(input) => contains_str(characters[i].name.as_str(), input.as_str()),
                _ => true,
            };
            if keep {
                let ghost before = r@;
                r.push(characters[i].name.clone());
                assert(crate::text::strings_view(r@) =~= crate::text::strings_view(before).push(characters@[i as int].name@));
            }
        }
        assert(characters@.take(n as int) =~= characters@);
        r
    }
}

/// Which profile to show, NSFW or not: as asked, but never NSFW in a
/// channel known to be SFW (`None`: refused); by default as the channel is.
pub open spec fn profile_nsfw_spec(requested: Option<bool>, channel_nsfw: Option<bool>) -> Option<bool> {
    match requested {
        Some(nsfw) => match channel_nsfw {
            Some(c) => if !c && nsfw { None } else { Some(nsfw) },
            None => Some(nsfw),
        },
        None => Some(channel_nsfw == Some(true)),
    }
}

/// Which profile to show, NSFW or not; `None` when an NSFW profile was asked
/// for in a SFW channel.
pub fn profile_nsfw(requested: Option<bool>, channel_nsfw: Option<bool>) -> (r: Option<bool>)
    ensures
        r == profile_nsfw_spec(requested, channel_nsfw),
{
    match requested {
        Some(nsfw) => match channel_nsfw {
            Some(c) => if !c && nsfw { None } else { Some(nsfw) },
            None => Some(nsfw),
        },
        None => Some(channel_nsfw == Some(true)),
    }
}

/// The refusal of an NSFW profile in a SFW channel.
pub fn sfw_channel_refusal() -> (r: Reply)
    ensures
        r@ == (ReplyView { content: Some("You can't get a NSFW profile in a SFW channel, dork!"@), ..empty_reply() }),
{
    Reply::text(string_of("You can't get a NSFW profile in a SFW channel, dork!"))
}

/// The list of a user's profiles: a line of name and summary for each.
pub open spec fn profile_list(cs: Seq<CharacterProfile>) -> Seq<char>
    decreases cs.len(),
{
    if cs.len() == 0 {
        seq![]
    } else {
        profile_list(cs.drop_last()) + "- "@ + cs.last().name@ + ": "@ + cs.last().sfw_summary@ + "\n"@
    }
}

/// The answer when the user has no profile of that name: the profiles they
/// do have.
pub open spec fn not_found_text(user_id: u64, name: Seq<char>, cs: Seq<CharacterProfile>) -> Seq<char> {
    "I'm afraid that user <@"@ + dec_nat(user_id as nat) + "> has no characters with the name `"@ + name
        + "`! They do however, have the following profiles configured...\n"@ + profile_list(cs)
}

/// Tells the asker, alone, that `user_id` has no profile called `name`, and
/// lists the profiles they have.
pub fn character_not_found(user_id: u64, name: &str, characters: &Vec<CharacterProfile>) -> (r: Reply)
    ensures
        r@ == (ReplyView { content: Some(not_found_text(user_id, name@, characters@)), ephemeral: true, ..empty_reply() }),
{
    let mut s = string_of("I'm afraid that user <@");
    push_dec_u64(&mut s, user_id);
    push_str(&mut s, "> has no characters with the name `");
    push_str(&mut s, name);
    push_str(&mut s, "`! They do however, have the following profiles configured...\n");
    let ghost head = s@;
    let n = characters.len();
    for i in 0..n
        invariant
            n == characters@.len(),
            s@ == head + profile_list(characters@.take(i as int)),
    {
        assert(characters@.take(i + 1).drop_last() =~= characters@.take(i as int));
        push_str(&mut s, "- ");
        push_str(&mut s, characters[i].name.as_str());
        push_str(&mut s, ": ");
        push_str(&mut s, characters[i].sfw_summary.as_str());
        push_str(&mut s, "\n");
        assert(s@ =~= head + profile_list(characters@.take(i + 1)));
    }
    assert(characters@.take(n as int) =~= characters@);
    assert(s@ =~= not_found_text(user_id, name@, characters@));
    Reply { content: Some(s), ephemeral: true, ..Reply::new() }
}

} // verus!

verus! {

/// A grey button.
pub open spec fn grey_button(id: Seq<char>, label: Seq<char>) -> ButtonView {
    ButtonView { custom_id: id, label, style: ButtonStyle::Secondary }
}

/// The buttons under a profile: the fetish button (NSFW only) and image
/// cycling, the detailed description, deleting, and opening or closing the
/// edit menu; with the menu open, a second row of editing buttons.
pub open spec fn components_spec(edit_menu: bool, nsfw: bool) -> Seq<Seq<ButtonView>> {
    let first = (if nsfw {
        seq![
            grey_button("character-fetish"@, "Fetishes"@),
            grey_button("character-image-nsfw"@, "Cycle Image"@),
        ]
    } else {
        seq![grey_button("character-image"@, "Cycle Image"@)]
    }) + seq![
        grey_button("character-description"@, "Show Detailed Description"@),
        ButtonView { custom_id: "character-delete"@, label: "Delete Character"@, style: ButtonStyle::Danger },
        if edit_menu {
            ButtonView { custom_id: "character-menu-close"@, label: "Close Menu"@, style: ButtonStyle::Primary }
        } else {
            ButtonView { custom_id: "character-menu-open"@, label: "Edit Menu"@, style: ButtonStyle::Primary }
        },
    ];
    if edit_menu {
        seq![
            first,
            seq![
                grey_button("character-add-prefix"@, "Add Prefix"@),
                grey_button("character-add-image"@, "Add Images"@),
                grey_button("character-add-icon"@, "Add Icons"@),
            ] + (if nsfw { seq![grey_button("character-add-fetish"@, "Add Fetishes"@)] } else { seq![] })
                + seq![grey_button("character-edit"@, "Update Description/Summary"@)],
        ]
    } else {
        seq![first]
    }
}

/// The buttons under a profile.
pub fn components(edit_menu: bool, nsfw: bool) -> (rows: Vec<Vec<Button>>)
    ensures
        rows_view(rows@) == components_spec(edit_menu, nsfw),
{
    let ghost spec = components_spec(edit_menu, nsfw);
    let mut rows: Vec<Vec<Button>> = Vec::new();
    let mut first: Vec<Button> = Vec::new();
    if nsfw {
        first.push(Button::new("character-fetish", "Fetishes", ButtonStyle::Secondary));
        first.push(Button::new("character-image-nsfw", "Cycle Image", ButtonStyle::Secondary));
    } else {
        first.push(Button::new("character-image", "Cycle Image", ButtonStyle::Secondary));
    }
    first.push(Button::new("character-description", "Show Detailed Description", ButtonStyle::Secondary));
    first.push(Button::new("character-delete", "Delete Character", ButtonStyle::Danger));
    if edit_menu {
        first.push(Button::new("character-menu-close", "Close Menu", ButtonStyle::Primary));
    } else {
        first.push(Button::new("character-menu-open", "Edit Menu", ButtonStyle::Primary));
    }
    assert(row_view(first@) =~= spec[0]);
    rows.push(first);
    if edit_menu {
        let mut second: Vec<Button> = Vec::new();
        second.push(Button::new("character-add-prefix", "Add Prefix", ButtonStyle::Secondary));
        second.push(Button::new("character-add-image", "Add Images", ButtonStyle::Secondary));
        second.push(Button::new("character-add-icon", "Add Icons", ButtonStyle::Secondary));
        if nsfw {
            second.push(Button::new("character-add-fetish", "Add Fetishes", ButtonStyle::Secondary));
        }
        second.push(Button::new("character-edit", "Update Description/Summary", ButtonStyle::Secondary));
        assert(row_view(second@) =~= spec[1]);
        rows.push(second);
    }
    assert(rows_view(rows@) =~= spec);
    rows
}

/// An image of a character.
#[derive(Clone, Debug)]
pub struct CharacterImage {
    pub url: String,
    pub nsfw: bool,
    pub favourite: bool,
}

/// The URLs of the images of one kind, in order.
pub open spec fn image_kind(images: Seq<CharacterImage>, nsfw: bool, favourite: bool) -> Seq<Seq<char>>
    decreases images.len(),
{
    if images.len() == 0 {
        seq![]
    } else if images.last().nsfw == nsfw && images.last().favourite == favourite {
        image_kind(images.drop_last(), nsfw, favourite).push(images.last().url@)
    } else {
        image_kind(images.drop_last(), nsfw, favourite)
    }
}

/// The images a profile picks from: the favourites of its kind (NSFW or
/// not), or, with none, the other images of its kind.
pub open spec fn image_pool_spec(images: Seq<CharacterImage>, nsfw: bool) -> Seq<Seq<char>> {
    if image_kind(images, nsfw, true).len() > 0 { image_kind(images, nsfw, true) } else { image_kind(images, nsfw, false) }
}

fn image_kind_urls(images: &Vec<CharacterImage>, nsfw: bool, favourite: bool) -> (r: Vec<String>)
    ensures
        crate::text::strings_view(r@) == image_kind(images@, nsfw, favourite),
{
    let mut r: Vec<String> = Vec::new();
    let n = images.len();
    for i in 0..n
        invariant
            n == images@.len(),
            crate::text::strings_view(r@) == image_kind(images@.take(i as int), nsfw, favourite),
    {
        assert(images@.take(i + 1).drop_last() =~= images@.take(i as int));
        if images[i].nsfw == nsfw && images[i].favourite == favourite {
            let ghost before = r@;
            r.push(images[i].url.clone());
            assert(crate::text::strings_view(r@) =~= crate::text::strings_view(before).push(images@[i as int].url@));
        }
    }
    assert(images@.take(n as int) =~= images@);
    r
}

/// The image URLs a profile picks from.
pub fn image_pool(images: &Vec<CharacterImage>, nsfw: bool) -> (r: Vec<String>)
    ensures
        crate::text::strings_view(r@) == image_pool_spec(images@, nsfw),
{
    let favs = image_kind_urls(images, nsfw, true);
    if favs.len() > 0 {
        favs
    } else {
        image_kind_urls(images, nsfw, false)
    }
}

/// `SliceRandom::choose`: one of the items, picked at random, or nothing
/// from an empty list.
#[verifier::external_body]
pub(crate) fn choose_one<T>(items: &Vec<T>) -> (r: Option<&T>)
    ensures
        r is None <==> items@.len() == 0,
        r matches Some(x) ==> items@.contains(*x),
{
    items.choose(&mut rand::thread_rng())
}

/// The profile's embed: the summaries (the NSFW one first, for an NSFW
/// profile that has one), the proxy prefix, the picked image, the owner as
/// author, the character's colour (else the bot's accent) and its icon.
pub open spec fn character_embed(
    c: CharacterProfile,
    image: Option<Seq<char>>,
    nsfw: bool,
    user_name: Seq<char>,
    user_avatar: Seq<char>,
    accent: u32,
) -> EmbedView {
    let sfw = EmbedFieldView { name: "SFW Summary"@, value: c.sfw_summary@, inline: true };
    let summaries = if nsfw && c.nsfw_summary is Some {
        seq![EmbedFieldView { name: "NSFW Summary"@, value: c.nsfw_summary->0@, inline: true }, sfw]
    } else {
        seq![sfw]
    };
    let fields = match c.prefix {
        Some(p) => summaries.push(EmbedFieldView { name: "Prefix"@, value: "`"@ + p@ + "`"@, inline: false }),
        None => summaries,
    };
    EmbedView {
        fields,
        image_url: image,
        author_icon_url: Some(user_avatar),
        author_name: Some(c.name@ + " - ["@ + user_name + "]"@),
        colour: Some(match c.colour { Some(col) => col, None => accent }),
        thumbnail_url: Some(if nsfw && c.nsfw_icon is Some { c.nsfw_icon->0@ } else { c.sfw_icon@ }),
        ..empty_embed()
    }
}

/// The profile's embed with the image `image`.
pub fn character_embed_with(
    c: &CharacterProfile,
    image: Option<String>,
    nsfw: bool,
    user_name: &str,
    user_avatar: &str,
    accent: u32,
) -> (e: EmbedData)
    ensures
        e@ == character_embed(*c, opt_view(image), nsfw, user_name@, user_avatar@, accent),
{
    let mut e = EmbedData::new();
    match (nsfw, &c.nsfw_summary) {
        (true, Some(s)) => {
            e.add_field("NSFW Summary", s.as_str(), true);
            e.add_field("SFW Summary", c.sfw_summary.as_str(), true);
        },
        _ => e.add_field("SFW Summary", c.sfw_summary.as_str(), true),
    }
    match &c.prefix {
        Some(p) => {
            let mut v = string_of("`");
            push_str(&mut v, p.as_str());
            push_str(&mut v, "`");
            e.add_field("Prefix", v.as_str(), false);
        },
        None => {},
    }
    e.image_url = image;
    e.author_icon_url = Some(string_of(user_avatar));
    let mut author = c.name.clone();
    push_str(&mut author, " - [");
    push_str(&mut author, user_name);
    push_str(&mut author, "]");
    e.author_name = Some(author);
    e.colour = Some(match c.colour { Some(col) => col, None => accent });
    e.thumbnail_url = Some(match (nsfw, &c.nsfw_icon) {
        (true, Some(i)) => i.clone(),
        _ => c.sfw_icon.clone(),
    });
    let ghost spec = character_embed(*c, opt_view(image), nsfw, user_name@, user_avatar@, accent);
    assert(e@.fields =~= spec.fields);
    e
}

/// `image` was picked from `pool`: some URL of it, or nothing from an empty
/// pool.
pub open spec fn picked_from(pool: Seq<Seq<char>>, image: Option<Seq<char>>) -> bool {
    &&& (image is None <==> pool.len() == 0)
    &&& (image matches Some(u) ==> pool.contains(u))
}

/// The profile shown with its buttons, the edit menu closed.
pub open spec fn profile_reply(
    c: CharacterProfile,
    image: Option<Seq<char>>,
    nsfw: bool,
    user_name: Seq<char>,
    user_avatar: Seq<char>,
    accent: u32,
) -> ReplyView {
    ReplyView {
        embeds: seq![character_embed(c, image, nsfw, user_name, user_avatar, accent)],
        components: components_spec(false, nsfw),
        ..empty_reply()
    }
}

/// The profile shown with its buttons (edit menu closed), its image picked
/// at random among the favourites of its kind, else among its other images
/// of that kind.
pub fn character_response(
    c: &CharacterProfile,
    images: &Vec<CharacterImage>,
    nsfw: bool,
    user_name: &str,
    user_avatar: &str,
    accent: u32,
) -> (r: Reply)
    ensures
        exists|image: Option<Seq<char>>|
            #[trigger] picked_from(image_pool_spec(images@, nsfw), image)
                && r@ == profile_reply(*c, image, nsfw, user_name@, user_avatar@, accent),
{
    let pool = image_pool(images, nsfw);
    let picked = choose_one(&pool);
    let image = match picked {
        Some(u) => Some(u.clone()),
        None => None,
    };
    let ghost iv = opt_view(image);
    proof {
        if picked is Some {
            let u = *picked->0;
            assert(pool@.contains(u));
            let i = choose|i: int| 0 <= i < pool@.len() && pool@[i] == u;
            assert(crate::text::strings_view(pool@)[i] == u@);
        }
    }
    let e = character_embed_with(c, image, nsfw, user_name, user_avatar, accent);
    let mut r = Reply::new();
    let ghost ev = e@;
    r.embeds.push(e);
    r.components = components(false, nsfw);
    assert(r@.embeds =~= seq![ev]);
    assert(picked_from(image_pool_spec(images@, nsfw), iv));
    r
}

} // verus!

verus! {

/// `/character`: show off your character!
#[derive(Debug)]
pub enum Command {
    Profile(profile::Command),
}

/// Why a `/character` interaction was not answered.
#[derive(PartialEq, Eq, Structural, Clone, Copy, Debug)]
pub enum CharacterError {
    /// The button is not one this command answers.
    NotComponent,
}

impl Command {
    /// The name of the character the command is about.
    pub fn character_name(&self) -> (r: &str)
        ensures
            r@ == match self {
                Command::Profile(cmd) => cmd.name@,
            },
    {
        match self {
            Command::Profile(cmd) => cmd.name.as_str(),
        }
    }

    /// A button under a profile: none of them is answered yet.
    pub fn handle_component(name: &str) -> (r: Result<Reply, CharacterError>)
        ensures
            r matches Err(e) && e == CharacterError::NotComponent,
    {
        Err(CharacterError::NotComponent)
    }
}

/// The channel is known to be NSFW.
pub open spec fn channel_is_nsfw(channel_nsfw: Option<bool>) -> bool {
    channel_nsfw == Some(true)
}

/// The answer when the profile is gone.
pub open spec fn gone_text(name: Seq<char>) -> Seq<char> {
    "Sorry, could not find the character "@ + name + " in my database. The user might have deleted this profile, sorry!"@
}

/// The image button: the profile again with another image picked, in place
/// of the message, NSFW when the channel is; a profile that is gone is told
/// to the presser alone.
pub fn character_cycle_image(
    found: &Option<CharacterProfile>,
    name: &str,
    images: &Vec<CharacterImage>,
    channel_nsfw: Option<bool>,
    user_name: &str,
    user_avatar: &str,
    accent: u32,
) -> (r: Reply)
    ensures
        *found is None ==> r@ == (ReplyView { content: Some(gone_text(name@)), ephemeral: true, ..empty_reply() }),
        *found matches Some(c) ==> exists|image: Option<Seq<char>>|
            #[trigger] picked_from(image_pool_spec(images@, channel_is_nsfw(channel_nsfw)), image)
                && r@ == (ReplyView {
                    update: true,
                    ..profile_reply(c, image, channel_is_nsfw(channel_nsfw), user_name@, user_avatar@, accent)
                }),
{
    match found {
        None => {
            let mut s = string_of("Sorry, could not find the character ");
            push_str(&mut s, name);
            push_str(&mut s, " in my database. The user might have deleted this profile, sorry!");
            Reply { content: Some(s), ephemeral: true, ..Reply::new() }
        },
        Some(c) => {
            let nsfw = channel_nsfw == Some(true);
            let mut r = character_response(c, images, nsfw, user_name, user_avatar, accent);
            let ghost image = choose|image: Option<Seq<char>>|
                #[trigger] picked_from(image_pool_spec(images@, nsfw), image)
                    && r@ == profile_reply(*c, image, nsfw, user_name@, user_avatar@, accent);
            r.update = true;
            assert(picked_from(image_pool_spec(images@, channel_is_nsfw(channel_nsfw)), image));
            r
        },
    }
}

} // verus!

verus! {

/// Every suggested name holds what was typed and is the name of one of the
/// characters.
pub proof fn law_suggestions_hold_input(names: Seq<Seq<char>>, input: Seq<char>)
    ensures
        forall|k: int| 0 <= k < names_holding(names, input).len() ==> {
            &&& has_substring(#[trigger] names_holding(names, input)[k], input)
            &&& names.contains(names_holding(names, input)[k])
        },
    decreases names.len(),
{
    if names.len() > 0 {
        let d = names.drop_last();
        law_suggestions_hold_input(d, input);
        let r = names_holding(names, input);
        assert forall|k: int| 0 <= k < r.len() implies has_substring(#[trigger] r[k], input) && names.contains(r[k]) by {
            if k < names_holding(d, input).len() {
                assert(r[k] == names_holding(d, input)[k]);
                let j = choose|j: int| 0 <= j < d.len() && d[j] == r[k];
                assert(names[j] == d[j]);
            } else {
                assert(r[k] == names.last());
                assert(names[names.len() - 1] == names.last());
            }
        }
    }
}

/// A profile shown in a channel known to be SFW is never the NSFW one.
pub proof fn law_no_nsfw_in_sfw_channel(requested: Option<bool>)
    ensures
        profile_nsfw_spec(requested, Some(false)) != Some(true),
{
}

} // verus!

verus! {

/// Editing a profile never wipes what the form leaves blank: an absent NSFW
/// description or summary keeps the stored one, a given one replaces it,
/// and the SFW summary and description are always the form's.
pub proof fn law_edit_keeps_blank_nsfw(existing: Option<CharacterProfile>, form: CharacterForm, author_id: u64)
    ensures
        existing matches Some(c) ==> {
            let m = merged_profile(existing, form, author_id);
            &&& form.nsfw_description is None ==> m.nsfw_description == c.nsfw_description
            &&& form.nsfw_description matches Some(d) ==> m.nsfw_description == Some(d)
            &&& form.nsfw_summary is None ==> m.nsfw_summary == c.nsfw_summary
            &&& form.nsfw_summary matches Some(s) ==> m.nsfw_summary == Some(s)
            &&& m.sfw_description == form.sfw_description
            &&& m.sfw_summary == form.sfw_summary
        },
{
}

/// Editing a profile through the form keeps whose it is, its name, icons,
/// prefix and colour; a new profile belongs to its author.
pub proof fn law_edit_keeps_identity(existing: Option<CharacterProfile>, form: CharacterForm, author_id: u64)
    ensures
        existing matches Some(c) ==> {
            let m = merged_profile(existing, form, author_id);
            &&& m.user_id == c.user_id
            &&& m.name == c.name
            &&& m.sfw_icon == c.sfw_icon
            &&& m.nsfw_icon == c.nsfw_icon
            &&& m.prefix == c.prefix
            &&& m.colour == c.colour
        },
        existing is None ==> merged_profile(existing, form, author_id).user_id == author_id
            && merged_profile(existing, form, author_id).name == form.name,
{
}

} // verus!
