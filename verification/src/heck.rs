//! `/heck`: playful messages aimed at a user, kept globally or per guild,
//! split into SFW and NSFW collections and keyed by ID.
use rand::Rng;
use std::collections::HashMap;
use vstd::prelude::*;
use crate::response::{empty_embed, empty_reply, EmbedData, EmbedFieldView, EmbedView, Reply, ReplyView};
use crate::text::{contains_str, dec_nat, has_substring, push_dec_u64, push_str, replace_all, replace_spec, string_of};

verus! {

broadcast use vstd::std_specs::hash::group_hash_axioms;

/// A heck: its message, with `<user>` and `<author>` placeholders, and who
/// wrote it.
#[derive(Debug)]
pub struct Heck {
    pub heck_message: String,
    pub author_id: u64,
}

pub struct HeckView {
    pub heck_message: Seq<char>,
    pub author_id: u64,
}

impl View for Heck {
    type V = HeckView;

    open spec fn view(&self) -> HeckView {
        HeckView { heck_message: self.heck_message@, author_id: self.author_id }
    }
}

impl Heck {
    /// A copy of the heck.
    pub fn duplicate(&self) -> (h: Heck)
        ensures
            h@ == self@,
    {
        Heck { heck_message: self.heck_message.clone(), author_id: self.author_id }
    }
}

/// The hecks of one scope (global or a guild), by ID.
#[derive(Debug)]
pub struct Hecks {
    pub sfw_hecks: HashMap<usize, Heck>,
    pub nsfw_hecks: HashMap<usize, Heck>,
}

impl Hecks {
    /// The collection for the channel type.
    pub open spec fn collection(self, nsfw: bool) -> Map<usize, Heck> {
        if nsfw { self.nsfw_hecks@ } else { self.sfw_hecks@ }
    }

    /// Stores `heck` under `id` in the SFW or NSFW collection, replacing what
    /// was there; the other collection is unchanged.
    pub fn insert(&mut self, nsfw: bool, id: usize, heck: Heck)
        ensures
            final(self).collection(nsfw) == old(self).collection(nsfw).insert(id, heck),
            final(self).collection(!nsfw) == old(self).collection(!nsfw),
    {
        if nsfw {
            self.nsfw_hecks.insert(id, heck);
        } else {
            self.sfw_hecks.insert(id, heck);
        }
    }
}

/// This keeps heck IDs as they are; they key the collections directly.
pub fn format_heck_id(input: usize) -> (r: usize)
    ensures
        r == input,
{
    input
}

/// The heck sent when none of the requested type is found, in the name of
/// the bot's owner.
pub open spec fn no_heck(owner_id: u64) -> HeckView {
    HeckView { heck_message: "No hecks of the requested type found!"@, author_id: owner_id }
}

/// The heck stored under `id` with that ID, or the stand-in with ID 69.
pub open spec fn heck_at(hecks: Map<usize, Heck>, id: usize, owner_id: u64) -> (HeckView, usize) {
    if hecks.contains_key(id) {
        (hecks[id]@, id)
    } else {
        (no_heck(owner_id), 69)
    }
}

/// Selection of a heck: a requested ID other than 0 is looked up; ID 0
/// means "any", which is the stand-in for an empty collection and otherwise
/// the heck under the random draw.
pub open spec fn pick_spec(hecks: Map<usize, Heck>, requested: usize, random: usize, owner_id: u64) -> (HeckView, usize) {
    if requested != 0 {
        heck_at(hecks, requested, owner_id)
    } else if hecks.len() == 0 {
        (no_heck(owner_id), 69)
    } else {
        heck_at(hecks, random, owner_id)
    }
}

/// `(heck, id)` is what the selection gives for the draw `random`, taken
/// below the size of a non-empty collection.
pub open spec fn drawn(hecks: Map<usize, Heck>, requested: usize, random: usize, owner_id: u64, heck: HeckView, id: usize) -> bool {
    &&& (hecks.len() > 0 ==> random < hecks.len())
    &&& (heck, id) == pick_spec(hecks, requested, random, owner_id)
}

/// Why no heck could be fetched or added.
#[derive(PartialEq, Eq, Structural, Debug)]
pub enum HeckError {
    /// The requested ID is negative (or does not fit a `usize`).
    InvalidId,
    /// A guild heck was asked for outside a guild.
    NotGuild,
    /// A guild heck was written outside a guild.
    NotGuildPlace,
}

/// What the user is told of each error.
pub open spec fn heck_error_text(e: HeckError) -> Seq<char> {
    match e {
        HeckError::InvalidId => "out of range integral type conversion attempted"@,
        HeckError::NotGuild => "Guild ID is not present. You can only use this option in a guild."@,
        HeckError::NotGuildPlace => "This place is not a guild. You can only use this option in a guild."@,
    }
}

impl HeckError {
    /// The message that tells the user what went wrong.
    pub fn message(&self) -> (s: String)
        ensures
            s@ == heck_error_text(*self),
    {
        match self {
            HeckError::InvalidId => string_of("out of range integral type conversion attempted"),
            HeckError::NotGuild => string_of("Guild ID is not present. You can only use this option in a guild."),
            HeckError::NotGuildPlace => string_of("This place is not a guild. You can only use this option in a guild."),
        }
    }
}

fn no_heck_exec(owner_id: u64) -> (h: Heck)
    ensures
        h@ == no_heck(owner_id),
{
    Heck { heck_message: string_of("No hecks of the requested type found!"), author_id: owner_id }
}

/// The key of the stored heck that a selection takes, if it finds one.
pub open spec fn found_key(hecks: Map<usize, Heck>, requested: usize, random: usize) -> Option<usize> {
    let key = if requested != 0 { requested } else { random };
    if (requested != 0 || hecks.len() > 0) && hecks.contains_key(key) {
        Some(key)
    } else {
        None
    }
}

/// The collection once the selected heck has been taken out of it; it is
/// unchanged when the stand-in was given.
pub open spec fn taken_from(hecks: Map<usize, Heck>, requested: usize, random: usize) -> Map<usize, Heck> {
    match found_key(hecks, requested, random) {
        Some(k) => hecks.remove(k),
        None => hecks,
    }
}

/// Selects a heck from `hecks` as `pick_spec` says, for the given draw, and
/// takes it out of the collection.
pub fn pick_heck(hecks: &mut HashMap<usize, Heck>, requested: usize, random: usize, owner_id: u64) -> (r: (Heck, usize))
    ensures
        (r.0@, r.1) == pick_spec(old(hecks)@, requested, random, owner_id),
        final(hecks)@ == taken_from(old(hecks)@, requested, random),
{
    let id = if requested != 0 {
        requested
    } else if hecks.len() == 0 {
        return (no_heck_exec(owner_id), 69);
    } else {
        random
    };
    match hecks.remove(&format_heck_id(id)) {
        Some(heck) => (heck, id),
        None => (no_heck_exec(owner_id), 69),
    }
}

/// `rand::thread_rng().gen_range(0..n)`: some value below `n`; which one is
/// chance.
#[verifier::external_body]
fn random_below(n: usize) -> (r: usize)
    requires
        n > 0,
    ensures
        r < n,
{
    rand::thread_rng().gen_range(0..n)
}

/// The requested ID is acceptable: absent, or between 0 and `usize::MAX`.
pub open spec fn valid_request(id: Option<i64>) -> bool {
    match id {
        Some(i) => 0 <= i <= usize::MAX,
        None => true,
    }
}

/// The ID a request stands for, 0 meaning "any".
pub open spec fn requested_id(id: Option<i64>) -> usize {
    match id {
        Some(i) => i as usize,
        None => 0,
    }
}

/// The collection a request draws from.
pub open spec fn chosen_hecks(global_hecks: Hecks, guild_hecks: Option<Hecks>, global: bool, nsfw: bool) -> Map<usize, Heck> {
    if global {
        global_hecks.collection(nsfw)
    } else {
        guild_hecks.unwrap().collection(nsfw)
    }
}

/// `(heck, id)` is the selection for some draw `random`, and `after` is the
/// collection with that heck taken out.
pub open spec fn drawn_and_taken(
    hecks: Map<usize, Heck>,
    requested: usize,
    random: usize,
    owner_id: u64,
    heck: HeckView,
    id: usize,
    after: Map<usize, Heck>,
) -> bool {
    drawn(hecks, requested, random, owner_id, heck, id) && after == taken_from(hecks, requested, random)
}

/// Fetch a heck and remove it from the store it came from: from the global
/// collection or the guild's, SFW or NSFW by the channel. A requested ID is
/// looked up; without one (or with 0) a heck is drawn at random. What is
/// missing gives the stand-in heck with ID 69 and removes nothing. Every
/// other collection is left as it was; on an error nothing changes.
pub fn get_heck(
    global_hecks: &mut Hecks,
    guild_hecks: &mut Option<Hecks>,
    id: Option<i64>,
    global: bool,
    nsfw: bool,
    owner_id: u64,
) -> (r: Result<(Heck, usize), HeckError>)
    ensures
        !valid_request(id) ==> r == Err::<(Heck, usize), HeckError>(HeckError::InvalidId),
        valid_request(id) && !global && *old(guild_hecks) is None ==> r == Err::<(Heck, usize), HeckError>(HeckError::NotGuild),
        r is Err ==> *final(global_hecks) == *old(global_hecks) && *final(guild_hecks) == *old(guild_hecks),
        valid_request(id) && (global || (*old(guild_hecks)) is Some) ==> (r matches Ok((h, k)) && exists|random: usize|
            #[trigger] drawn_and_taken(
                chosen_hecks(*old(global_hecks), *old(guild_hecks), global, nsfw),
                requested_id(id),
                random,
                owner_id,
                h@,
                k,
                chosen_hecks(*final(global_hecks), *final(guild_hecks), global, nsfw),
            )),
        r is Ok ==> (*final(guild_hecks)) is Some == (*old(guild_hecks)) is Some,
        r is Ok ==> final(global_hecks).collection(!nsfw) == old(global_hecks).collection(!nsfw),
        r is Ok && (*old(guild_hecks)) is Some ==> (*final(guild_hecks))->0.collection(!nsfw) == (*old(guild_hecks))->0.collection(!nsfw),
        r is Ok && global ==> *final(guild_hecks) == *old(guild_hecks),
        r is Ok && !global ==> *final(global_hecks) == *old(global_hecks),
{
    let requested: usize = match id {
        Some(i) => {
            if i < 0 || i as u64 > usize::MAX as u64 {
                return Err(HeckError::InvalidId);
            }
            i as usize
        },
        None => 0,
    };
    assert(requested == requested_id(id));
    if global {
        let ghost before = chosen_hecks(*global_hecks, *guild_hecks, global, nsfw);
        let hecks: &mut HashMap<usize, Heck> = if nsfw { &mut global_hecks.nsfw_hecks } else { &mut global_hecks.sfw_hecks };
        assert(hecks@ == before);
        let random = if requested == 0 && hecks.len() > 0 { random_below(hecks.len()) } else { 0 };
        let picked = pick_heck(hecks, requested, random, owner_id);
        assert(drawn_and_taken(before, requested, random, owner_id, picked.0@, picked.1,
            chosen_hecks(*global_hecks, *guild_hecks, global, nsfw)));
        let r: Result<(Heck, usize), HeckError> = Ok(picked);
        assert(r->Ok_0 == picked);
        r
    } else {
        let ghost before = chosen_hecks(*global_hecks, *guild_hecks, global, nsfw);
        let ghost mut drawn_random: usize = 0;
        let r = match guild_hecks {
            None => Err(HeckError::NotGuild),
            Some(g) => {
                let hecks: &mut HashMap<usize, Heck> = if nsfw { &mut g.nsfw_hecks } else { &mut g.sfw_hecks };
                assert(hecks@ == before);
                let random = if requested == 0 && hecks.len() > 0 { random_below(hecks.len()) } else { 0 };
                let picked = pick_heck(hecks, requested, random, owner_id);
                proof {
                    drawn_random = random;
                }
                let r: Result<(Heck, usize), HeckError> = Ok(picked);
                assert(r->Ok_0 == picked);
                r
            },
        };
        assert(r matches Ok((h, k)) ==> drawn_and_taken(before, requested, drawn_random, owner_id, h@, k,
            chosen_hecks(*global_hecks, *guild_hecks, global, nsfw)));
        r
    }
}

/// A user mention, `<@id>`.
pub open spec fn mention(id: u64) -> Seq<char> {
    "<@"@ + dec_nat(id as nat) + ">"@
}

/// Appends a user mention.
pub fn push_mention(s: &mut String, id: u64)
    ensures
        final(s)@ == old(s)@ + mention(id),
{
    push_str(s, "<@");
    push_dec_u64(s, id);
    push_str(s, ">");
    assert(s@ =~= old(s)@ + mention(id));
}

/// A user mention as a new string.
pub fn mention_string(id: u64) -> (s: String)
    ensures
        s@ == mention(id),
{
    let mut s = String::new();
    push_mention(&mut s, id);
    assert(s@ =~= mention(id));
    s
}

/// The message of a heck once aimed: `<user>` becomes a mention of the
/// hecked user and `<author>` one of who sent the heck.
pub open spec fn formatted_message(message: Seq<char>, heck_author_id: u64, hecked_user_id: u64) -> Seq<char> {
    replace_spec(replace_spec(message, "<user>"@, mention(hecked_user_id)), "<author>"@, mention(heck_author_id))
}

/// Replace `<user>` with `<@hecked_user>` and `<author>` with the caller of
/// the heck command; the heck keeps its author.
pub fn format_heck(heck: &Heck, heck_author_id: u64, hecked_user_id: u64) -> (r: Heck)
    ensures
        r@ == (HeckView { heck_message: formatted_message(heck.heck_message@, heck_author_id, hecked_user_id), author_id: heck.author_id }),
{
    proof {
        reveal_strlit("<user>");
        reveal_strlit("<author>");
    }
    let user = mention_string(hecked_user_id);
    let author = mention_string(heck_author_id);
    let step = replace_all(heck.heck_message.as_str(), "<user>", user.as_str());
    Heck { heck_message: replace_all(step.as_str(), "<author>", author.as_str()), author_id: heck.author_id }
}

/// A message without placeholders is sent as written.
pub proof fn law_format_without_placeholders(message: Seq<char>, heck_author_id: u64, hecked_user_id: u64)
    requires
        !has_substring(message, "<user>"@),
        !has_substring(message, "<author>"@),
    ensures
        formatted_message(message, heck_author_id, hecked_user_id) == message,
{
    reveal_strlit("<user>");
    reveal_strlit("<author>");
    crate::text::lemma_replace_absent(message, "<user>"@, mention(hecked_user_id));
    crate::text::lemma_replace_absent(message, "<author>"@, mention(heck_author_id));
}

/// Which ID lists need reloading before a heck is drawn: those that have
/// run empty, in the guild (when there is one) and globally.
#[derive(PartialEq, Eq, Structural, Debug)]
pub struct HeckReloads {
    pub guild_nsfw: bool,
    pub guild_sfw: bool,
    pub global_nsfw: bool,
    pub global_sfw: bool,
}

/// This checks which heck ID lists are empty and must be reloaded. The
/// guild's lists are checked only when a guild is given, as the lengths of
/// its available NSFW and SFW IDs.
pub fn check_hecks_are_present(guild_available: Option<(usize, usize)>, global_nsfw: usize, global_sfw: usize) -> (r: HeckReloads)
    ensures
        r == (HeckReloads {
            guild_nsfw: guild_available matches Some((n, _)) && n == 0,
            guild_sfw: guild_available matches Some((_, s)) && s == 0,
            global_nsfw: global_nsfw == 0,
            global_sfw: global_sfw == 0,
        }),
{
    let (guild_nsfw, guild_sfw) = match guild_available {
        Some((n, s)) => (n == 0, s == 0),
        None => (false, false),
    };
    HeckReloads { guild_nsfw, guild_sfw, global_nsfw: global_nsfw == 0, global_sfw: global_sfw == 0 }
}

} // verus!

verus! {

/// A heck stored under a non-zero ID is the one a request for that ID
/// fetches: what `Hecks::insert` writes, `get_heck` reads back.
pub proof fn law_added_heck_is_fetched(hecks: Map<usize, Heck>, id: usize, heck: Heck, random: usize, owner_id: u64)
    requires
        id != 0,
    ensures
        pick_spec(hecks.insert(id, heck), id, random, owner_id) == (heck@, id),
{
}

/// Fetching takes the heck it finds out of its collection, and only that
/// heck: the ID given back is no longer a key there and every other entry
/// stays as it was. When nothing is found, the stand-in is given and the
/// collection is left as it was.
pub proof fn law_fetched_heck_is_removed(hecks: Map<usize, Heck>, requested: usize, random: usize, owner_id: u64)
    ensures
        ({
            let (h, k) = pick_spec(hecks, requested, random, owner_id);
            let after = taken_from(hecks, requested, random);
            &&& found_key(hecks, requested, random) is Some ==> {
                &&& hecks.contains_key(k) && h == hecks[k]@
                &&& !after.contains_key(k)
                &&& forall|j: usize| j != k ==> (#[trigger] after.contains_key(j) == hecks.contains_key(j))
                    && (hecks.contains_key(j) ==> after[j] == hecks[j])
            }
            &&& found_key(hecks, requested, random) is None ==> h == no_heck(owner_id) && k == 69 && after == hecks
        }),
{
}

/// `/heck add`: write a new heck in a modal.
#[derive(Debug)]
pub struct HeckAddCommand {}

/// `/heck info`: information on the current heck database.
#[derive(Debug)]
pub struct HeckInfo {}

/// Where a new heck goes and how the confirmation shows it.
#[derive(Debug)]
pub struct HeckAddPlan {
    /// Global heck, or a heck of the guild.
    pub global: bool,
    /// The ID the heck is stored under.
    pub heck_id: usize,
    /// The new author line of the confirmation embed.
    pub author_name: String,
    /// The fields added to the confirmation embed.
    pub fields: Vec<crate::response::EmbedField>,
}

/// The author line of the confirmation.
pub open spec fn heck_created_name(global: bool, nsfw: bool) -> Seq<char> {
    if global {
        if nsfw { "Global Heck Created - NSFW Heck"@ } else { "Global Heck Created - SFW Heck"@ }
    } else {
        if nsfw { "Guild Heck Created - NSFW Heck"@ } else { "Guild Heck Created - SFW Heck"@ }
    }
}

/// The fields of the confirmation.
pub open spec fn heck_created_fields(global: bool, heck_id: usize) -> Seq<EmbedFieldView> {
    seq![
        EmbedFieldView {
            name: if global { "Global Heck"@ } else { "Guild Heck"@ },
            value: "Just created"@,
            inline: true,
        },
        EmbedFieldView { name: "Heck ID"@, value: dec_nat(heck_id as nat), inline: true },
    ]
}

/// Based on the selected option, a new heck is global (ID one past the size
/// of the global collection) or belongs to the guild (ID the size of the
/// guild's collection); a guild heck outside a guild is refused.
pub fn heck_add_plan(selected: &str, nsfw: bool, global_len: usize, guild_len: Option<usize>) -> (r: Result<HeckAddPlan, HeckError>)
    requires
        global_len < usize::MAX,
    ensures
        has_substring(selected@, "heck-add-global"@) ==> (r matches Ok(p) && p.global && p.heck_id == global_len + 1
            && p.author_name@ == heck_created_name(true, nsfw)
            && crate::response::fields_view(p.fields@) == heck_created_fields(true, p.heck_id)),
        !has_substring(selected@, "heck-add-global"@) && guild_len is None ==> r == Err::<HeckAddPlan, HeckError>(HeckError::NotGuildPlace),
        (!has_substring(selected@, "heck-add-global"@) && guild_len is Some) ==> (r matches Ok(p) && !p.global
            && p.heck_id == guild_len->0 && p.author_name@ == heck_created_name(false, nsfw)
            && crate::response::fields_view(p.fields@) == heck_created_fields(false, p.heck_id)),
{
    let global = contains_str(selected, "heck-add-global");
    let heck_id = if global {
        global_len + 1
    } else {
        match guild_len {
            Some(n) => n,
            None => return Err(HeckError::NotGuildPlace),
        }
    };
    let author_name = if global {
        if nsfw { string_of("Global Heck Created - NSFW Heck") } else { string_of("Global Heck Created - SFW Heck") }
    } else {
        if nsfw { string_of("Guild Heck Created - NSFW Heck") } else { string_of("Guild Heck Created - SFW Heck") }
    };
    let mut fields: Vec<crate::response::EmbedField> = Vec::new();
    fields.push(crate::response::EmbedField::new(if global { "Global Heck" } else { "Guild Heck" }, "Just created", true));
    let id_text = crate::text::dec_string(heck_id as u64);
    fields.push(crate::response::EmbedField { name: string_of("Heck ID"), value: id_text, inline: true });
    assert(crate::response::fields_view(fields@) =~= heck_created_fields(global, heck_id));
    Ok(HeckAddPlan { global, heck_id, author_name, fields })
}

/// A line `label count` ending the line.
pub open spec fn count_line(label: Seq<char>, n: usize) -> Seq<char> {
    label + dec_nat(n as nat) + "\n"@
}

fn push_count_line(s: &mut String, label: &str, n: usize)
    ensures
        final(s)@ == old(s)@ + count_line(label@, n),
{
    push_str(s, label);
    push_dec_u64(s, n as u64);
    push_str(s, "\n");
    assert(s@ =~= old(s)@ + count_line(label@, n));
}

/// The counts of one scope: hecks and IDs still available, SFW then NSFW.
pub struct HeckCounts {
    pub sfw_hecks: usize,
    pub nsfw_hecks: usize,
    pub sfw_ids: usize,
    pub nsfw_ids: usize,
}

/// The stats text of a scope, its label `GLOBAL` or `GUILD`.
pub open spec fn heck_stats(scope: Seq<char>, c: HeckCounts) -> Seq<char> {
    count_line("**"@ + scope + " SFW HECKS:** "@, c.sfw_hecks)
        + count_line("**"@ + scope + " NSFW HECKS:** "@, c.nsfw_hecks)
        + count_line("**"@ + scope + " SFW IDS AVAILABLE:** "@, c.sfw_ids)
        + count_line("**"@ + scope + " NSFW IDS AVAILABLE:** "@, c.nsfw_ids)
}

/// The embed of `/heck info`: global stats, and the guild's when there are
/// settings for it.
pub open spec fn heck_info_spec(global: HeckCounts, guild: Option<HeckCounts>) -> EmbedView {
    let global_field = EmbedFieldView { name: "Global Stats"@, value: heck_stats("GLOBAL"@, global), inline: true };
    EmbedView {
        title: Some("Heck Information - Global"@),
        fields: match guild {
            Some(g) => seq![global_field, EmbedFieldView { name: "Guild Stats"@, value: heck_stats("GUILD"@, g), inline: true }],
            None => seq![global_field],
        },
        ..empty_embed()
    }
}

fn stats_text(global_scope: bool, c: &HeckCounts) -> (s: String)
    ensures
        s@ == heck_stats(if global_scope { "GLOBAL"@ } else { "GUILD"@ }, *c),
{
    let mut s = String::new();
    if global_scope {
        push_count_line(&mut s, "**GLOBAL SFW HECKS:** ", c.sfw_hecks);
        push_count_line(&mut s, "**GLOBAL NSFW HECKS:** ", c.nsfw_hecks);
        push_count_line(&mut s, "**GLOBAL SFW IDS AVAILABLE:** ", c.sfw_ids);
        push_count_line(&mut s, "**GLOBAL NSFW IDS AVAILABLE:** ", c.nsfw_ids);
        proof {
            reveal_strlit("**GLOBAL SFW HECKS:** ");
            reveal_strlit("**GLOBAL NSFW HECKS:** ");
            reveal_strlit("**GLOBAL SFW IDS AVAILABLE:** ");
            reveal_strlit("**GLOBAL NSFW IDS AVAILABLE:** ");
            reveal_strlit("**");
            reveal_strlit("GLOBAL");
            reveal_strlit(" SFW HECKS:** ");
            reveal_strlit(" NSFW HECKS:** ");
            reveal_strlit(" SFW IDS AVAILABLE:** ");
            reveal_strlit(" NSFW IDS AVAILABLE:** ");
        }
    } else {
        push_count_line(&mut s, "**GUILD SFW HECKS:** ", c.sfw_hecks);
        push_count_line(&mut s, "**GUILD NSFW HECKS:** ", c.nsfw_hecks);
        push_count_line(&mut s, "**GUILD SFW IDS AVAILABLE:** ", c.sfw_ids);
        push_count_line(&mut s, "**GUILD NSFW IDS AVAILABLE:** ", c.nsfw_ids);
        proof {
            reveal_strlit("**GUILD SFW HECKS:** ");
            reveal_strlit("**GUILD NSFW HECKS:** ");
            reveal_strlit("**GUILD SFW IDS AVAILABLE:** ");
            reveal_strlit("**GUILD NSFW IDS AVAILABLE:** ");
            reveal_strlit("**");
            reveal_strlit("GUILD");
            reveal_strlit(" SFW HECKS:** ");
            reveal_strlit(" NSFW HECKS:** ");
            reveal_strlit(" SFW IDS AVAILABLE:** ");
            reveal_strlit(" NSFW IDS AVAILABLE:** ");
        }
    }
    assert(s@ =~= heck_stats(if global_scope { "GLOBAL"@ } else { "GUILD"@ }, *c));
    s
}

impl HeckInfo {
    /// The embed of `/heck info`.
    pub fn run_command(&self, global: &HeckCounts, guild: Option<&HeckCounts>) -> (e: EmbedData)
        ensures
            e@ == heck_info_spec(*global, match guild { Some(g) => Some(*g), None => None }),
    {
        let mut embed = EmbedData::new();
        embed.title = Some(string_of("Heck Information - Global"));
        let global_details = stats_text(true, global);
        embed.add_field("Global Stats", global_details.as_str(), true);
        match guild {
            Some(g) => {
                let guild_details = stats_text(false, g);
                embed.add_field("Guild Stats", guild_details.as_str(), true);
            },
            None => {},
        }
        let ghost want = heck_info_spec(*global, match guild { Some(g) => Some(*g), None => None });
        assert(embed@.fields =~= want.fields);
        embed
    }
}

/// The footer of a heck sent as an embed.
pub open spec fn heck_footer(heck_id: usize, nsfw: bool) -> Seq<char> {
    "Heck ID "@ + dec_nat(heck_id as nat) + if nsfw { " - NSFW Heck"@ } else { " - SFW Heck"@ }
}

/// The reply that sends a formatted heck: as plain text when asked, or
/// mentioning the hecked user over an embed in the accent colour that
/// credits the heck's author and shows its ID.
pub open spec fn heck_reply_spec(
    message: Seq<char>,
    heck_id: usize,
    hecked_user_id: u64,
    plaintext: Option<bool>,
    nsfw: bool,
    accent_colour: u32,
    author_name: Seq<char>,
    author_avatar: Seq<char>,
) -> ReplyView {
    if plaintext == Some(true) {
        ReplyView { content: Some(message), ..empty_reply() }
    } else {
        ReplyView {
            content: Some(mention(hecked_user_id)),
            embeds: seq![EmbedView {
                description: Some(message),
                colour: Some(accent_colour),
                author_name: Some("Heck created by "@ + author_name),
                author_icon_url: Some(author_avatar),
                footer_text: Some(heck_footer(heck_id, nsfw)),
                ..empty_embed()
            }],
            ..empty_reply()
        }
    }
}

/// The reply of `/heck someone` for a heck already formatted.
pub fn heck_reply(
    message: &str,
    heck_id: usize,
    hecked_user_id: u64,
    plaintext: Option<bool>,
    nsfw: bool,
    accent_colour: u32,
    author_name: &str,
    author_avatar: &str,
) -> (r: Reply)
    ensures
        r@ == heck_reply_spec(message@, heck_id, hecked_user_id, plaintext, nsfw, accent_colour, author_name@, author_avatar@),
{
    let plain = match plaintext { Some(p) => p, None => false };
    if plain {
        return Reply::text(string_of(message));
    }
    let mut embed = EmbedData::new();
    embed.description = Some(string_of(message));
    embed.colour = Some(accent_colour);
    let mut name = string_of("Heck created by ");
    push_str(&mut name, author_name);
    embed.author_name = Some(name);
    embed.author_icon_url = Some(string_of(author_avatar));
    let mut footer = string_of("Heck ID ");
    push_dec_u64(&mut footer, heck_id as u64);
    push_str(&mut footer, if nsfw { " - NSFW Heck" } else { " - SFW Heck" });
    assert(footer@ =~= heck_footer(heck_id, nsfw));
    embed.footer_text = Some(footer);
    let mut r = Reply::text(mention_string(hecked_user_id));
    r.embeds.push(embed);
    let ghost want = heck_reply_spec(message@, heck_id, hecked_user_id, plaintext, nsfw, accent_colour, author_name@, author_avatar@);
    assert(r@.embeds =~= want.embeds);
    r
}

} // verus!

verus! {

impl HeckAddCommand {
    /// The form asking for the new heck: a paragraph of 20 to 2048
    /// characters.
    pub fn run_command(&self) -> (m: crate::modals::Modal)
        ensures
            m@ == (crate::modals::ModalView {
                title: "Write your heck below!"@,
                custom_id: "heck-add"@,
                inputs: seq![crate::modals::TextInputView {
                    custom_id: "heck-text"@,
                    label: "Enter your new heck below"@,
                    placeholder: Some("<author> just gave <user> headpats!!"@),
                    style: Some(crate::modals::TextInputStyle::Paragraph),
                    required: Some(true),
                    value: None,
                    min_length: Some(20),
                    max_length: Some(2048),
                }],
            }),
    {
        let mut inputs: Vec<crate::modals::TextInput> = Vec::new();
        inputs.push(crate::modals::TextInput {
            custom_id: string_of("heck-text"),
            label: string_of("Enter your new heck below"),
            placeholder: Some(string_of("<author> just gave <user> headpats!!")),
            style: Some(crate::modals::TextInputStyle::Paragraph),
            required: Some(true),
            value: None,
            min_length: Some(20),
            max_length: Some(2048),
        });
        let m = crate::modals::Modal { title: string_of("Write your heck below!"), custom_id: string_of("heck-add"), inputs };
        assert(m@.inputs =~= seq![crate::modals::TextInputView {
            custom_id: "heck-text"@,
            label: "Enter your new heck below"@,
            placeholder: Some("<author> just gave <user> headpats!!"@),
            style: Some(crate::modals::TextInputStyle::Paragraph),
            required: Some(true),
            value: None,
            min_length: Some(20),
            max_length: Some(2048),
        }]);
        m
    }
}

} // verus!

verus! {

/// `/heck someone`: heck a user.
#[derive(Debug)]
pub struct HeckSomeoneCommand {
    /// The user to heck
    pub user: u64,
    /// Get a global heck, or a heck that is specific to this server
    pub global: bool,
    /// Get a specific heck
    pub id: Option<i64>,
    /// Should the heck be sent as plaintext? (Without an embed)
    pub plaintext: Option<bool>,
}

/// `/heck`: send a playful message at a user of your choice.
#[derive(Debug)]
pub enum HeckCommands {
    Add(HeckAddCommand),
    Someone(Box<HeckSomeoneCommand>),
    Info(HeckInfo),
}

/// The first `/heck someone`: heck a user with a global heck.
#[derive(Debug)]
pub struct HeckUserCommand {
    /// The user to heck
    pub user: u64,
    /// Get a specific heck
    pub id: Option<i64>,
    /// Should the heck be sent as plaintext? (Without an embed)
    pub plaintext: Option<bool>,
}

/// The reply of a heck aimed by `caller_id` at `user`.
pub open spec fn aimed_heck_reply(
    heck: HeckView,
    heck_id: usize,
    caller_id: u64,
    user: u64,
    plaintext: Option<bool>,
    nsfw: bool,
    accent: u32,
    heck_author_name: Seq<char>,
    heck_author_avatar: Seq<char>,
) -> ReplyView {
    heck_reply_spec(
        formatted_message(heck.heck_message, caller_id, user),
        heck_id,
        user,
        plaintext,
        nsfw,
        accent,
        heck_author_name,
        heck_author_avatar,
    )
}

fn aimed_reply(
    heck: &Heck,
    heck_id: usize,
    caller_id: u64,
    user: u64,
    plaintext: Option<bool>,
    nsfw: bool,
    accent: u32,
    heck_author_name: &str,
    heck_author_avatar: &str,
) -> (r: Reply)
    ensures
        r@ == aimed_heck_reply(heck@, heck_id, caller_id, user, plaintext, nsfw, accent, heck_author_name@, heck_author_avatar@),
{
    let formatted = format_heck(heck, caller_id, user);
    heck_reply(formatted.heck_message.as_str(), heck_id, user, plaintext, nsfw, accent, heck_author_name, heck_author_avatar)
}

impl HeckSomeoneCommand {
    /// The heck to send, taken out of the global or the guild's collection,
    /// by ID or drawn at random (see `get_heck`).
    pub fn fetch(&self, global_hecks: &mut Hecks, guild_hecks: &mut Option<Hecks>, nsfw: bool, owner_id: u64) -> (r: Result<(Heck, usize), HeckError>)
        ensures
            !valid_request(self.id) ==> r == Err::<(Heck, usize), HeckError>(HeckError::InvalidId),
            valid_request(self.id) && !self.global && *old(guild_hecks) is None ==> r == Err::<(Heck, usize), HeckError>(HeckError::NotGuild),
            r is Err ==> *final(global_hecks) == *old(global_hecks) && *final(guild_hecks) == *old(guild_hecks),
            valid_request(self.id) && (self.global || (*old(guild_hecks)) is Some) ==> (r matches Ok((h, k)) && exists|random: usize|
                #[trigger] drawn_and_taken(
                    chosen_hecks(*old(global_hecks), *old(guild_hecks), self.global, nsfw),
                    requested_id(self.id),
                    random,
                    owner_id,
                    h@,
                    k,
                    chosen_hecks(*final(global_hecks), *final(guild_hecks), self.global, nsfw),
                )),
            r is Ok ==> (*final(guild_hecks)) is Some == (*old(guild_hecks)) is Some,
            r is Ok ==> final(global_hecks).collection(!nsfw) == old(global_hecks).collection(!nsfw),
            r is Ok && (*old(guild_hecks)) is Some ==> (*final(guild_hecks))->0.collection(!nsfw) == (*old(guild_hecks))->0.collection(!nsfw),
            r is Ok && self.global ==> *final(guild_hecks) == *old(guild_hecks),
            r is Ok && !self.global ==> *final(global_hecks) == *old(global_hecks),
    {
        get_heck(global_hecks, guild_hecks, self.id, self.global, nsfw, owner_id)
    }

    /// The heck, aimed by `caller_id` at the user, as the reply.
    pub fn respond(
        &self,
        heck: &Heck,
        heck_id: usize,
        caller_id: u64,
        nsfw: bool,
        accent: u32,
        heck_author_name: &str,
        heck_author_avatar: &str,
    ) -> (r: Reply)
        ensures
            r@ == aimed_heck_reply(heck@, heck_id, caller_id, self.user, self.plaintext, nsfw, accent, heck_author_name@, heck_author_avatar@),
    {
        aimed_reply(heck, heck_id, caller_id, self.user, self.plaintext, nsfw, accent, heck_author_name, heck_author_avatar)
    }
}

impl HeckUserCommand {
    /// The heck, aimed by `caller_id` at the user, as the reply.
    pub fn run(
        &self,
        heck: &Heck,
        heck_id: usize,
        caller_id: u64,
        nsfw: bool,
        accent: u32,
        heck_author_name: &str,
        heck_author_avatar: &str,
    ) -> (r: Reply)
        ensures
            r@ == aimed_heck_reply(heck@, heck_id, caller_id, self.user, self.plaintext, nsfw, accent, heck_author_name@, heck_author_avatar@),
    {
        aimed_reply(heck, heck_id, caller_id, self.user, self.plaintext, nsfw, accent, heck_author_name, heck_author_avatar)
    }
}

} // verus!
