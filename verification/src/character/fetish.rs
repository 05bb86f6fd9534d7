//! `/character fetish`: add fetishes to a character profile.
use vstd::prelude::*;
use crate::character::classic::FetishCategory;
use crate::character::{character_not_found, not_found_text, CharacterProfile};
use crate::response::{empty_reply, EmbedData, EmbedFieldView, EmbedView, Reply, ReplyView};
use crate::text::{dec_int, push_dec_i64, push_str, string_of};

verus! {

/// A fetish of a character, as the database keeps it.
#[derive(Debug)]
pub struct CharacterFetish {
    pub character_name: String,
    pub user_id: u64,
    pub fetish_id: i64,
    pub category: FetishCategory,
    pub name: String,
    pub description: String,
}

/// `/character fetish create`: create a fetish and add it to a character
/// profile.
#[derive(Debug)]
pub struct Create {
    /// The character that should be modified
    pub character: String,
    /// The fetish category to add
    pub category: FetishCategory,
    /// The name of the fetish
    pub name: String,
    /// Description of that fetish
    pub description: String,
}

/// `/character fetish`: add or remove some fetishes to your profile.
#[derive(Debug)]
pub enum Command {
    Create(Create),
}

/// The lines of the fetishes of one category: number, name and description.
pub open spec fn fetish_entries(fs: Seq<CharacterFetish>, cat: FetishCategory) -> Seq<char>
    decreases fs.len(),
{
    if fs.len() == 0 {
        seq![]
    } else if fs.last().category == cat {
        fetish_entries(fs.drop_last(), cat) + "- `"@ + dec_int(fs.last().fetish_id as int) + "`: "@ + fs.last().name@ + " - "@
            + fs.last().description@ + "\n"@
    } else {
        fetish_entries(fs.drop_last(), cat)
    }
}

/// A category's field, shown when it has fetishes.
pub open spec fn entry_field(fs: Seq<CharacterFetish>, cat: FetishCategory, label: Seq<char>) -> Seq<EmbedFieldView> {
    if fetish_entries(fs, cat).len() > 0 {
        seq![EmbedFieldView { name: label, value: fetish_entries(fs, cat), inline: false }]
    } else {
        seq![]
    }
}

/// The fields of a character's fetishes, by category.
pub open spec fn fetish_fields(fs: Seq<CharacterFetish>) -> Seq<EmbedFieldView> {
    entry_field(fs, FetishCategory::Favourite, "Favourites"@)
        + entry_field(fs, FetishCategory::Love, "Love"@)
        + entry_field(fs, FetishCategory::Like, "Like"@)
        + entry_field(fs, FetishCategory::Neutral, "Neutral"@)
        + entry_field(fs, FetishCategory::Dislike, "Dislike"@)
        + entry_field(fs, FetishCategory::Hate, "Hate"@)
        + entry_field(fs, FetishCategory::Limit, "Limits"@)
}

fn entries_string(fs: &Vec<CharacterFetish>, cat: FetishCategory) -> (s: String)
    ensures
        s@ == fetish_entries(fs@, cat),
{
    let mut s = String::new();
    let n = fs.len();
    for i in 0..n
        invariant
            n == fs@.len(),
            s@ == fetish_entries(fs@.take(i as int), cat),
    {
        assert(fs@.take(i + 1).drop_last() =~= fs@.take(i as int));
        if fs[i].category == cat {
            push_str(&mut s, "- `");
            push_dec_i64(&mut s, fs[i].fetish_id);
            push_str(&mut s, "`: ");
            push_str(&mut s, fs[i].name.as_str());
            push_str(&mut s, " - ");
            push_str(&mut s, fs[i].description.as_str());
            push_str(&mut s, "\n");
        }
    }
    assert(fs@.take(n as int) =~= fs@);
    s
}

fn add_entry_field(e: &mut EmbedData, fs: &Vec<CharacterFetish>, cat: FetishCategory, label: &str)
    ensures
        final(e)@ == (EmbedView { fields: old(e)@.fields + entry_field(fs@, cat, label@), ..old(e)@ }),
{
    let lines = entries_string(fs, cat);
    if lines.as_str().unicode_len() > 0 {
        e.add_field(label, lines.as_str(), false);
    }
    assert(e@.fields =~= old(e)@.fields + entry_field(fs@, cat, label@));
}

/// Adds a field for each category that has fetishes.
pub fn add_fetish_fields(e: &mut EmbedData, fs: &Vec<CharacterFetish>)
    ensures
        final(e)@ == (EmbedView { fields: old(e)@.fields + fetish_fields(fs@), ..old(e)@ }),
{
    add_entry_field(e, fs, FetishCategory::Favourite, "Favourites");
    add_entry_field(e, fs, FetishCategory::Love, "Love");
    add_entry_field(e, fs, FetishCategory::Like, "Like");
    add_entry_field(e, fs, FetishCategory::Neutral, "Neutral");
    add_entry_field(e, fs, FetishCategory::Dislike, "Dislike");
    add_entry_field(e, fs, FetishCategory::Hate, "Hate");
    add_entry_field(e, fs, FetishCategory::Limit, "Limits");
    assert(e@.fields =~= old(e)@.fields + fetish_fields(fs@));
}

impl Create {
    /// The embed's heading: the fetish's name as the profile's title, and
    /// the author.
    pub fn heading(&self, base: EmbedData, author_name: &str, author_avatar: &str) -> (e: EmbedData)
        ensures
            e@ == (EmbedView {
                title: Some("Character Profile - "@ + self.name@),
                author_icon_url: Some(author_avatar@),
                author_name: Some("Profile by "@ + author_name@),
                ..base@
            }),
    {
        let mut e = base;
        let mut title = string_of("Character Profile - ");
        push_str(&mut title, self.name.as_str());
        e.title = Some(title);
        e.author_icon_url = Some(string_of(author_avatar));
        let mut author = string_of("Profile by ");
        push_str(&mut author, author_name);
        e.author_name = Some(author);
        e
    }

    /// The name the author's character is looked up by: the character that
    /// should be modified.
    pub fn lookup_name(&self) -> (n: &str)
        ensures
            n@ == self.character@,
    {
        self.character.as_str()
    }

    /// The answer when the author has no profile by the name looked up.
    pub fn not_found(&self, author_id: u64, characters: &Vec<CharacterProfile>) -> (r: Reply)
        ensures
            r@ == (ReplyView { content: Some(not_found_text(author_id, self.character@, characters@)), ephemeral: true, ..empty_reply() }),
    {
        character_not_found(author_id, self.lookup_name(), characters)
    }

    /// The fetish to store: numbered by how many fetishes there are in all.
    pub fn record(&self, author_id: u64, fetish_total: usize) -> (f: CharacterFetish)
        requires
            fetish_total <= i64::MAX,
        ensures
            f.character_name@ == self.character@,
            f.user_id == author_id,
            f.fetish_id == fetish_total as int,
            f.category == self.category,
            f.name@ == self.name@,
            f.description@ == self.description@,
    {
        CharacterFetish {
            character_name: self.character.clone(),
            user_id: author_id,
            fetish_id: fetish_total as i64,
            category: self.category,
            name: self.name.clone(),
            description: self.description.clone(),
        }
    }
}

/// The character's fetishes by category, to the author alone.
pub fn fetish_reply(heading: EmbedData, fetishes: &Vec<CharacterFetish>) -> (r: Reply)
    ensures
        r@ == (ReplyView {
            embeds: seq![EmbedView { fields: heading@.fields + fetish_fields(fetishes@), ..heading@ }],
            ephemeral: true,
            ..empty_reply()
        }),
{
    let mut e = heading;
    add_fetish_fields(&mut e, fetishes);
    let mut r = Reply::new();
    let ghost ev = e@;
    r.embeds.push(e);
    r.ephemeral = true;
    assert(r@.embeds =~= seq![ev]);
    r
}

} // verus!
