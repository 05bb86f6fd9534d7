//! `/about`: information about the bot, laid out as a padded table.
use vstd::prelude::*;
use vstd::utf8::encode_utf8;
use crate::heck::{mention, push_mention};
use crate::response::{empty_embed, EmbedData, EmbedFieldView, EmbedView};
use crate::text::{dec_nat, pad_end, pad_start, push_dec_u64, push_padded_end, push_padded_start, push_str, string_of};

verus! {

/// The largest first component, 0 for none.
pub open spec fn max_first(s: Seq<(usize, usize)>) -> nat
    decreases s.len(),
{
    if s.len() == 0 {
        0
    } else if s.last().0 > max_first(s.drop_last()) {
        s.last().0 as nat
    } else {
        max_first(s.drop_last())
    }
}

/// The largest second component, 0 for none.
pub open spec fn max_second(s: Seq<(usize, usize)>) -> nat
    decreases s.len(),
{
    if s.len() == 0 {
        0
    } else if s.last().1 > max_second(s.drop_last()) {
        s.last().1 as nat
    } else {
        max_second(s.drop_last())
    }
}

/// Work out how many padding characters are needed for a nicely formatted
/// table: from the lengths of each row's prefix and suffix, the longest
/// prefix, the longest suffix, and the two together.
pub fn padding_calculator(input: Vec<(usize, usize)>) -> (r: (usize, usize, usize))
    requires
        max_first(input@) + max_second(input@) <= usize::MAX,
    ensures
        r.0 == max_first(input@),
        r.1 == max_second(input@),
        r.2 == r.0 + r.1,
{
    let mut prefix_length: usize = 0;
    let mut suffix_length: usize = 0;
    let n = input.len();
    for i in 0..n
        invariant
            n == input@.len(),
            prefix_length == max_first(input@.take(i as int)),
            suffix_length == max_second(input@.take(i as int)),
    {
        let (prefix, suffix) = input[i];
        assert(input@.take(i + 1).drop_last() =~= input@.take(i as int));
        if prefix > prefix_length {
            prefix_length = prefix;
        }
        if suffix > suffix_length {
            suffix_length = suffix;
        }
    }
    assert(input@.take(n as int) =~= input@);
    (prefix_length, suffix_length, prefix_length + suffix_length)
}

/// The maximum bounds every entry and is one of them (or 0 for none).
pub proof fn law_padding_is_maximum(input: Seq<(usize, usize)>)
    ensures
        forall|i: int| 0 <= i < input.len() ==> (#[trigger] input[i]).0 <= max_first(input) && input[i].1 <= max_second(input),
        max_first(input) == 0 || exists|i: int| 0 <= i < input.len() && input[i].0 == max_first(input),
        max_second(input) == 0 || exists|i: int| 0 <= i < input.len() && input[i].1 == max_second(input),
    decreases input.len(),
{
    if input.len() > 0 {
        let init = input.drop_last();
        law_padding_is_maximum(init);
        assert forall|i: int| 0 <= i < input.len() implies (#[trigger] input[i]).0 <= max_first(input) && input[i].1 <= max_second(input) by {
            if i < input.len() - 1 {
                assert(input[i] == init[i]);
            }
        }
        if max_first(input) != 0 && max_first(input) != input.last().0 {
            let j = choose|j: int| 0 <= j < init.len() && init[j].0 == max_first(init);
            assert(input[j] == init[j]);
        }
        if max_second(input) != 0 && max_second(input) != input.last().1 {
            let j = choose|j: int| 0 <= j < init.len() && init[j].1 == max_second(init);
            assert(input[j] == init[j]);
        }
        assert(input[input.len() - 1] == input.last());
    }
}

/// No rows need no padding, and a row with an empty prefix and suffix
/// changes nothing.
pub proof fn law_padding_of_empty_rows(input: Seq<(usize, usize)>)
    ensures
        max_first(Seq::<(usize, usize)>::empty()) == 0 && max_second(Seq::<(usize, usize)>::empty()) == 0,
        max_first(input.push((0, 0))) == max_first(input),
        max_second(input.push((0, 0))) == max_second(input),
{
    assert(input.push((0, 0)).drop_last() =~= input);
}

/// The padding does not depend on the order of the rows: rows that are a
/// reordering of each other give the same padding.
pub proof fn law_padding_ignores_order(input: Seq<(usize, usize)>, reordered: Seq<(usize, usize)>)
    requires
        reordered.to_multiset() == input.to_multiset(),
    ensures
        max_first(reordered) == max_first(input),
        max_second(reordered) == max_second(input),
{
    law_padding_is_maximum(input);
    law_padding_is_maximum(reordered);
    assert forall|x: (usize, usize)| reordered.contains(x) <==> input.contains(x) by {
        vstd::seq_lib::to_multiset_contains(reordered, x);
        vstd::seq_lib::to_multiset_contains(input, x);
    }
    if max_first(reordered) != 0 {
        let j = choose|j: int| 0 <= j < reordered.len() && reordered[j].0 == max_first(reordered);
        assert(reordered.contains(reordered[j]));
        let k = choose|k: int| 0 <= k < input.len() && input[k] == reordered[j];
    }
    if max_first(input) != 0 {
        let j = choose|j: int| 0 <= j < input.len() && input[j].0 == max_first(input);
        assert(input.contains(input[j]));
        let k = choose|k: int| 0 <= k < reordered.len() && reordered[k] == input[j];
    }
    if max_second(reordered) != 0 {
        let j = choose|j: int| 0 <= j < reordered.len() && reordered[j].1 == max_second(reordered);
        assert(reordered.contains(reordered[j]));
        let k = choose|k: int| 0 <= k < input.len() && input[k] == reordered[j];
    }
    if max_second(input) != 0 {
        let j = choose|j: int| 0 <= j < input.len() && input[j].1 == max_second(input);
        assert(input.contains(input[j]));
        let k = choose|k: int| 0 <= k < reordered.len() && reordered[k] == input[j];
    }
}

/// The byte lengths of each row's prefix and suffix.
pub open spec fn row_sizes(rows: Seq<(Seq<char>, Seq<char>)>) -> Seq<(usize, usize)> {
    rows.map_values(|r: (Seq<char>, Seq<char>)| (encode_utf8(r.0).len() as usize, encode_utf8(r.1).len() as usize))
}

/// One line of the table: `{prefix:<p$} {suffix:>s$}`.
pub open spec fn table_line(row: (Seq<char>, Seq<char>), p: nat, s: nat) -> Seq<char> {
    pad_end(row.0, p) + " "@ + pad_start(row.1, s) + "\n"@
}

/// The lines of the table, in order.
pub open spec fn table_text(rows: Seq<(Seq<char>, Seq<char>)>, p: nat, s: nat) -> Seq<char>
    decreases rows.len(),
{
    if rows.len() == 0 {
        seq![]
    } else {
        table_text(rows.drop_last(), p, s) + table_line(rows.last(), p, s)
    }
}

/// The views of a list of rows.
pub open spec fn rows_view(rows: Seq<(String, String)>) -> Seq<(Seq<char>, Seq<char>)> {
    rows.map_values(|r: (String, String)| (r.0@, r.1@))
}

/// The table of the rows, each prefix padded after it and each suffix
/// before it to the longest of its column (as counted in bytes).
pub open spec fn padded_table(rows: Seq<(Seq<char>, Seq<char>)>) -> Seq<char> {
    table_text(rows, max_first(row_sizes(rows)), max_second(row_sizes(rows)))
}

/// Appends the rows as a padded table.
pub fn push_table(out: &mut String, rows: &Vec<(String, String)>)
    requires
        max_first(row_sizes(rows_view(rows@))) + max_second(row_sizes(rows_view(rows@))) <= usize::MAX,
    ensures
        final(out)@ == old(out)@ + padded_table(rows_view(rows@)),
{
    let ghost rv = rows_view(rows@);
    let n = rows.len();
    let mut sizes: Vec<(usize, usize)> = Vec::new();
    for i in 0..n
        invariant
            n == rows@.len(),
            rv == rows_view(rows@),
            sizes@ == row_sizes(rv.take(i as int)),
    {
        let a = rows[i].0.as_str().as_bytes().len();
        let b = rows[i].1.as_str().as_bytes().len();
        sizes.push((a, b));
        assert(row_sizes(rv.take(i + 1)) =~= row_sizes(rv.take(i as int)).push((a, b)));
    }
    assert(rv.take(n as int) =~= rv);
    let (prefix_len, suffix_len, _) = padding_calculator(sizes);
    let ghost start = out@;
    for i in 0..n
        invariant
            n == rows@.len(),
            rv == rows_view(rows@),
            out@ == start + table_text(rv.take(i as int), prefix_len as nat, suffix_len as nat),
    {
        push_padded_end(out, rows[i].0.as_str(), prefix_len);
        push_str(out, " ");
        push_padded_start(out, rows[i].1.as_str(), suffix_len);
        push_str(out, "\n");
        assert(rv.take(i + 1).drop_last() =~= rv.take(i as int));
        assert(out@ =~= start + table_text(rv.take(i + 1), prefix_len as nat, suffix_len as nat));
    }
}

/// `text` in backticks.
pub open spec fn ticked(text: Seq<char>) -> Seq<char> {
    "`"@ + text + "`"@
}

fn ticked_string(text: &str) -> (s: String)
    ensures
        s@ == ticked(text@),
{
    let mut s = string_of("`");
    push_str(&mut s, text);
    push_str(&mut s, "`");
    s
}

/// A size in bytes as whole megabytes, in backticks: `` `n MB` ``.
pub open spec fn megabytes(bytes: usize) -> Seq<char> {
    ticked(dec_nat((bytes / 1024 / 1024) as nat) + " MB"@)
}

fn megabytes_string(bytes: usize) -> (s: String)
    ensures
        s@ == megabytes(bytes),
{
    let mut s = string_of("`");
    push_dec_u64(&mut s, (bytes / 1024 / 1024) as u64);
    push_str(&mut s, " MB`");
    proof {
        reveal_strlit(" MB`");
        reveal_strlit(" MB");
        reveal_strlit("`");
    }
    assert(s@ =~= megabytes(bytes));
    s
}

/// What the bot knows of itself for `/about`.
pub struct AboutInfo {
    /// The configured description, if any.
    pub description: Option<String>,
    pub accent_colour: u32,
    pub bot_name: String,
    pub bot_avatar: String,
    /// The crate version.
    pub version: String,
    /// The git branch and revision, when the source is a repository.
    pub git: Option<(String, String)>,
    /// Physical and virtual memory in use, when measured.
    pub memory: Option<(usize, usize)>,
    /// The application owner's name and ID, if any.
    pub owner: Option<(String, u64)>,
    /// The staff's names and IDs.
    pub staff: Vec<(String, u64)>,
}

/// The views of the branch and revision.
pub open spec fn git_view(g: Option<(String, String)>) -> Option<(Seq<char>, Seq<char>)> {
    match g {
        Some((b, r)) => Some((b@, r@)),
        None => None,
    }
}

/// The opening of the description.
pub open spec fn about_intro(description: Option<Seq<char>>) -> Seq<char> {
    match description {
        Some(d) => d + "\n"@,
        None => "Hiya! I'm a general purpose Discord bot that can do a good amount of things, complete with a furry twist.\n\n"@,
    }
}

/// The rows of the version table.
pub open spec fn version_rows(version: Seq<char>, git: Option<(Seq<char>, Seq<char>)>) -> Seq<(Seq<char>, Seq<char>)> {
    match git {
        Some((branch, revision)) => seq![("- Version:"@, ticked(version)), ("- Branch:"@, ticked(branch)), ("- Revision:"@, ticked(revision))],
        None => seq![("- Version:"@, ticked(version))],
    }
}

/// The rows of the memory table.
pub open spec fn memory_rows(physical: usize, virtual_mem: usize) -> Seq<(Seq<char>, Seq<char>)> {
    seq![("- Physical memory usage:"@, megabytes(physical)), ("- Virtual memory usage:"@, megabytes(virtual_mem))]
}

/// One staff line: a name, or a mention.
pub open spec fn staff_line(name: Seq<char>, id: u64, show_username: bool) -> Seq<char> {
    if show_username { "- "@ + name + "\n"@ } else { "- "@ + mention(id) + "\n"@ }
}

/// The staff list.
pub open spec fn staff_list(staff: Seq<(String, u64)>, show_username: bool) -> Seq<char>
    decreases staff.len(),
{
    if staff.len() == 0 {
        seq![]
    } else {
        staff_list(staff.drop_last(), show_username) + staff_line(staff.last().0@, staff.last().1, show_username)
    }
}

/// The embed of `/about`.
pub open spec fn about_spec(info: AboutInfo, memory: bool, show_username: bool) -> EmbedView {
    let git = git_view(info.git);
    let description = about_intro(crate::response::opt_view(info.description)) + padded_table(version_rows(info.version@, git));
    let memory_field = match info.memory {
        Some((p, v)) => if memory {
            seq![EmbedFieldView { name: "Memory Stats"@, value: padded_table(memory_rows(p, v)), inline: true }]
        } else {
            seq![]
        },
        None => seq![],
    };
    let creator_field = match info.owner {
        Some((name, id)) => seq![EmbedFieldView {
            name: "My Creator!"@,
            value: if show_username { "- "@ + name@ } else { "- "@ + mention(id) },
            inline: true,
        }],
        None => seq![],
    };
    EmbedView {
        colour: Some(info.accent_colour),
        title: Some(info.bot_name@),
        thumbnail_url: Some(info.bot_avatar@),
        footer_text: Some("Written in twilight.rs!"@),
        description: Some(description),
        fields: memory_field + creator_field + seq![EmbedFieldView {
            name: "Those with 'Administrator' access!"@,
            value: staff_list(info.staff@, show_username),
            inline: false,
        }],
        ..empty_embed()
    }
}

/// The table rows fit the padding arithmetic.
pub open spec fn table_fits(rows: Seq<(Seq<char>, Seq<char>)>) -> bool {
    max_first(row_sizes(rows)) + max_second(row_sizes(rows)) <= usize::MAX
}

/// The description and memory tables of `/about` fit the padding arithmetic.
pub open spec fn about_fits(info: AboutInfo) -> bool {
    let git = git_view(info.git);
    &&& table_fits(version_rows(info.version@, git))
    &&& (info.memory matches Some((p, v)) ==> table_fits(memory_rows(p, v)))
}

/// `/about`: information about me!
#[derive(Debug)]
pub struct Command {
    /// Show memory stats
    pub memory: Option<bool>,
    /// Show cache stats,
    pub cache: Option<bool>,
    /// Show as the user's username instead of ID,
    pub show_username: Option<bool>,
}

fn row(prefix: &str, suffix: String) -> (r: (String, String))
    ensures
        r.0@ == prefix@,
        r.1@ == suffix@,
{
    (string_of(prefix), suffix)
}

impl Command {
    /// The embed of `/about`: the description with a table of the version
    /// (and branch and revision), the memory table when asked for and
    /// measured, the application's creator, and the staff.
    pub fn handle_command(&self, info: &AboutInfo) -> (e: EmbedData)
        requires
            about_fits(*info),
        ensures
            e@ == about_spec(*info, self.memory == Some(true), self.show_username == Some(true)),
    {
        let show_username = match self.show_username { Some(b) => b, None => false };
        let memory = match self.memory { Some(b) => b, None => false };
        let mut description = match &info.description {
            Some(d) => {
                let mut s = d.clone();
                push_str(&mut s, "\n");
                s
            },
            None => string_of("Hiya! I'm a general purpose Discord bot that can do a good amount of things, complete with a furry twist.\n\n"),
        };
        let mut rows: Vec<(String, String)> = Vec::new();
        rows.push(row("- Version:", ticked_string(info.version.as_str())));
        match &info.git {
            Some((branch, revision)) => {
                rows.push(row("- Branch:", ticked_string(branch.as_str())));
                rows.push(row("- Revision:", ticked_string(revision.as_str())));
            },
            None => {},
        }
        let ghost git = git_view(info.git);
        assert(rows_view(rows@) =~= version_rows(info.version@, git));
        push_table(&mut description, &rows);
        let mut embed = EmbedData::new();
        embed.colour = Some(info.accent_colour);
        embed.title = Some(info.bot_name.clone());
        embed.thumbnail_url = Some(info.bot_avatar.clone());
        embed.footer_text = Some(string_of("Written in twilight.rs!"));
        embed.description = Some(description);
        if memory {
            match info.memory {
                Some((physical, virtual_mem)) => {
                    let mut mem_rows: Vec<(String, String)> = Vec::new();
                    mem_rows.push(row("- Physical memory usage:", megabytes_string(physical)));
                    mem_rows.push(row("- Virtual memory usage:", megabytes_string(virtual_mem)));
                    assert(rows_view(mem_rows@) =~= memory_rows(physical, virtual_mem));
                    let mut table = String::new();
                    push_table(&mut table, &mem_rows);
                    embed.add_field("Memory Stats", table.as_str(), true);
                },
                None => {},
            }
        }
        match &info.owner {
            Some((name, id)) => {
                let mut value = string_of("- ");
                if show_username {
                    push_str(&mut value, name.as_str());
                } else {
                    push_mention(&mut value, *id);
                }
                embed.add_field("My Creator!", value.as_str(), true);
            },
            None => {},
        }
        let mut staff_text = String::new();
        let n = info.staff.len();
        for i in 0..n
            invariant
                n == info.staff@.len(),
                staff_text@ == staff_list(info.staff@.take(i as int), show_username),
        {
            let (name, id) = &info.staff[i];
            push_str(&mut staff_text, "- ");
            if show_username {
                push_str(&mut staff_text, name.as_str());
            } else {
                push_mention(&mut staff_text, *id);
            }
            push_str(&mut staff_text, "\n");
            assert(info.staff@.take(i + 1).drop_last() =~= info.staff@.take(i as int));
            assert(staff_text@ =~= staff_list(info.staff@.take(i + 1), show_username));
        }
        assert(info.staff@.take(n as int) =~= info.staff@);
        embed.add_field("Those with 'Administrator' access!", staff_text.as_str(), false);
        let ghost want = about_spec(*info, self.memory == Some(true), self.show_username == Some(true));
        assert(embed@.fields =~= want.fields);
        embed
    }
}

} // verus!

verus! {

/// `/about` (first version): information about me!
#[derive(Debug)]
pub struct AboutCommand {
    /// Show memory stats
    pub memory: Option<bool>,
    /// Show cache stats,
    pub cache: Option<bool>,
}

/// The counts of the bot's cache.
#[derive(Clone, Copy, Debug)]
pub struct CacheStats {
    pub guilds: usize,
    pub channels: usize,
    pub emojis: usize,
    pub members: usize,
    pub presences: usize,
    pub roles: usize,
    pub unavailable_guilds: usize,
    pub users: usize,
    pub voice_states: usize,
}

/// A line `label `n``.
pub open spec fn stat_line(label: Seq<char>, n: usize) -> Seq<char> {
    label + ticked(dec_nat(n as nat)) + "\n"@
}

fn push_stat_line(s: &mut String, label: &str, n: usize)
    ensures
        final(s)@ == old(s)@ + stat_line(label@, n),
{
    push_str(s, label);
    push_str(s, "`");
    push_dec_u64(s, n as u64);
    push_str(s, "`\n");
    proof {
        reveal_strlit("`\n");
        reveal_strlit("`");
        reveal_strlit("\n");
    }
    assert(s@ =~= old(s)@ + stat_line(label@, n));
}

/// The line of a count when it is not zero.
pub open spec fn nonzero_line(label: Seq<char>, shown: bool, n: usize) -> Seq<char> {
    if shown { stat_line(label, n) } else { seq![] }
}

/// The cache lines: each count that is not zero, with users shown when
/// there are guilds.
pub open spec fn cache_text(c: CacheStats) -> Seq<char> {
    nonzero_line("**Guilds:** "@, c.guilds != 0, c.guilds)
        + nonzero_line("**Channels:** "@, c.channels != 0, c.channels)
        + nonzero_line("**Emojis:** "@, c.emojis != 0, c.emojis)
        + nonzero_line("**Members:** "@, c.members != 0, c.members)
        + nonzero_line("**Presences:** "@, c.presences != 0, c.presences)
        + nonzero_line("**Roles:** "@, c.roles != 0, c.roles)
        + nonzero_line("**Unavailable Guilds:** "@, c.unavailable_guilds != 0, c.unavailable_guilds)
        + nonzero_line("**Users:** "@, c.guilds != 0, c.users)
        + nonzero_line("**Voice States:** "@, c.voice_states != 0, c.voice_states)
}

fn push_nonzero_line(s: &mut String, label: &str, shown: bool, n: usize)
    ensures
        final(s)@ == old(s)@ + nonzero_line(label@, shown, n),
{
    if shown {
        push_stat_line(s, label, n);
    } else {
        assert(s@ =~= old(s)@ + nonzero_line(label@, shown, n));
    }
}

/// The cache statistics text.
pub fn cache_stats_text(c: &CacheStats) -> (s: String)
    ensures
        s@ == cache_text(*c),
{
    let mut s = String::new();
    push_nonzero_line(&mut s, "**Guilds:** ", c.guilds != 0, c.guilds);
    push_nonzero_line(&mut s, "**Channels:** ", c.channels != 0, c.channels);
    push_nonzero_line(&mut s, "**Emojis:** ", c.emojis != 0, c.emojis);
    push_nonzero_line(&mut s, "**Members:** ", c.members != 0, c.members);
    push_nonzero_line(&mut s, "**Presences:** ", c.presences != 0, c.presences);
    push_nonzero_line(&mut s, "**Roles:** ", c.roles != 0, c.roles);
    push_nonzero_line(&mut s, "**Unavailable Guilds:** ", c.unavailable_guilds != 0, c.unavailable_guilds);
    push_nonzero_line(&mut s, "**Users:** ", c.guilds != 0, c.users);
    push_nonzero_line(&mut s, "**Voice States:** ", c.voice_states != 0, c.voice_states);
    assert(s@ =~= cache_text(*c));
    s
}

/// One administrator: `` `name` - <@id> ``, with `unknown` and the bot
/// owner standing in for what is missing.
pub open spec fn admin_item(member: (Option<String>, Option<u64>), default_owner: u64) -> Seq<char> {
    ticked(match member.0 { Some(n) => n@, None => "unknown"@ }) + " - "@
        + mention(match member.1 { Some(i) => i, None => default_owner })
}

/// The administrators separated by `, `.
pub open spec fn admins_text(staff: Seq<(Option<String>, Option<u64>)>, default_owner: u64) -> Seq<char>
    decreases staff.len(),
{
    if staff.len() == 0 {
        seq![]
    } else if admins_text(staff.drop_last(), default_owner).len() == 0 {
        admin_item(staff.last(), default_owner)
    } else {
        admins_text(staff.drop_last(), default_owner) + ", "@ + admin_item(staff.last(), default_owner)
    }
}

/// The description of the first `/about`.
pub open spec fn legacy_description(info: AboutInfo, staff: Seq<(Option<String>, Option<u64>)>, default_owner: u64) -> Seq<char> {
    let admins = admins_text(staff, default_owner);
    "Hiya! I'm a general purpose Discord bot that can do a good amount of things, complete with a furry twist.\n"@
        + "**\nVersion:** "@ + ticked(info.version@) + "\n"@
        + match git_view(info.git) {
            Some((b, r)) => "**Branch:** "@ + ticked(b) + "\n"@ + "**Revision:** "@ + ticked(r) + "\n"@,
            None => seq![],
        }
        + match info.owner {
            Some((name, id)) => "**Primary Owner:** "@ + ticked(name@) + " - "@ + mention(id) + "\n"@,
            None => seq![],
        }
        + if admins.len() == 0 { seq![] } else { "**Administrators:** "@ + admins + "\n"@ }
        + "\n"@
}

/// The memory text of the first `/about`: empty when not measured.
pub open spec fn legacy_memory(memory: Option<(usize, usize)>) -> Seq<char> {
    match memory {
        Some((p, v)) => "**Physical memory usage:** "@ + megabytes(p) + "\n"@ + "**Virtual memory usage:** "@ + megabytes(v) + "\n"@,
        None => seq![],
    }
}

/// The embed of the first `/about`.
pub open spec fn legacy_about_spec(
    info: AboutInfo,
    staff: Seq<(Option<String>, Option<u64>)>,
    default_owner: u64,
    cache: CacheStats,
    memory: bool,
    show_cache: bool,
) -> EmbedView {
    let memory_field = if memory {
        seq![EmbedFieldView { name: "Memory Stats"@, value: legacy_memory(info.memory), inline: true }]
    } else {
        seq![]
    };
    let cache_field = if show_cache {
        seq![EmbedFieldView { name: "Cache Stats"@, value: cache_text(cache), inline: true }]
    } else {
        seq![]
    };
    EmbedView {
        colour: Some(info.accent_colour),
        title: Some(info.bot_name@),
        thumbnail_url: Some(info.bot_avatar@),
        footer_text: Some("Written in twilight.rs!"@),
        description: Some(legacy_description(info, staff, default_owner)),
        fields: memory_field + cache_field,
        ..empty_embed()
    }
}

fn push_admin_item(s: &mut String, member: &(Option<String>, Option<u64>), default_owner: u64)
    ensures
        final(s)@ == old(s)@ + admin_item(*member, default_owner),
{
    push_str(s, "`");
    match &member.0 {
        Some(n) => push_str(s, n.as_str()),
        None => push_str(s, "unknown"),
    }
    push_str(s, "` - ");
    push_mention(s, match member.1 { Some(i) => i, None => default_owner });
    proof {
        reveal_strlit("` - ");
        reveal_strlit("`");
        reveal_strlit(" - ");
    }
    assert(s@ =~= old(s)@ + admin_item(*member, default_owner));
}

fn admins_string(staff: &Vec<(Option<String>, Option<u64>)>, default_owner: u64) -> (admins: String)
    ensures
        admins@ == admins_text(staff@, default_owner),
{
    let mut admins = String::new();
    let n = staff.len();
    for i in 0..n
        invariant
            n == staff@.len(),
            admins@ == admins_text(staff@.take(i as int), default_owner),
    {
        assert(staff@.take(i + 1).drop_last() =~= staff@.take(i as int));
        if admins.as_str().unicode_len() == 0 {
            push_admin_item(&mut admins, &staff[i], default_owner);
            assert(admins@ =~= admins_text(staff@.take(i + 1), default_owner));
        } else {
            push_str(&mut admins, ", ");
            push_admin_item(&mut admins, &staff[i], default_owner);
            assert(admins@ =~= admins_text(staff@.take(i + 1), default_owner));
        }
    }
    assert(staff@.take(n as int) =~= staff@);
    admins
}

fn push_git_lines(description: &mut String, git: &Option<(String, String)>)
    ensures
        final(description)@ == old(description)@ + match git_view(*git) {
            Some((b, r)) => "**Branch:** "@ + ticked(b) + "\n"@ + "**Revision:** "@ + ticked(r) + "\n"@,
            None => seq![],
        },
{
    match git {
        Some((b, r)) => {
            push_str(description, "**Branch:** ");
            push_str(description, ticked_string(b.as_str()).as_str());
            push_str(description, "\n");
            push_str(description, "**Revision:** ");
            push_str(description, ticked_string(r.as_str()).as_str());
            push_str(description, "\n");
        },
        None => {},
    }
    assert(description@ =~= old(description)@ + match git_view(*git) {
        Some((b, r)) => "**Branch:** "@ + ticked(b) + "\n"@ + "**Revision:** "@ + ticked(r) + "\n"@,
        None => seq![],
    });
}

fn push_owner_line(description: &mut String, owner: &Option<(String, u64)>)
    ensures
        final(description)@ == old(description)@ + match *owner {
            Some((name, id)) => "**Primary Owner:** "@ + ticked(name@) + " - "@ + mention(id) + "\n"@,
            None => seq![],
        },
{
    match owner {
        Some((name, id)) => {
            push_str(description, "**Primary Owner:** ");
            push_str(description, ticked_string(name.as_str()).as_str());
            push_str(description, " - ");
            push_mention(description, *id);
            push_str(description, "\n");
        },
        None => {},
    }
    assert(description@ =~= old(description)@ + match *owner {
        Some((name, id)) => "**Primary Owner:** "@ + ticked(name@) + " - "@ + mention(id) + "\n"@,
        None => seq![],
    });
}

fn legacy_description_text(info: &AboutInfo, staff: &Vec<(Option<String>, Option<u64>)>, default_owner: u64) -> (d: String)
    ensures
        d@ == legacy_description(*info, staff@, default_owner),
{
    let admins = admins_string(staff, default_owner);
    let mut description = string_of("Hiya! I'm a general purpose Discord bot that can do a good amount of things, complete with a furry twist.\n");
    push_str(&mut description, "**\nVersion:** ");
    push_str(&mut description, ticked_string(info.version.as_str()).as_str());
    push_str(&mut description, "\n");
    push_git_lines(&mut description, &info.git);
    push_owner_line(&mut description, &info.owner);
    if admins.as_str().unicode_len() != 0 {
        push_str(&mut description, "**Administrators:** ");
        push_str(&mut description, admins.as_str());
        push_str(&mut description, "\n");
    }
    push_str(&mut description, "\n");
    assert(description@ =~= legacy_description(*info, staff@, default_owner));
    description
}

fn legacy_memory_text(memory: Option<(usize, usize)>) -> (m: String)
    ensures
        m@ == legacy_memory(memory),
{
    let mut memory_description = String::new();
    match memory {
        Some((physical, virtual_mem)) => {
            push_str(&mut memory_description, "**Physical memory usage:** ");
            push_str(&mut memory_description, megabytes_string(physical).as_str());
            push_str(&mut memory_description, "\n");
            push_str(&mut memory_description, "**Virtual memory usage:** ");
            push_str(&mut memory_description, megabytes_string(virtual_mem).as_str());
            push_str(&mut memory_description, "\n");
        },
        None => {},
    }
    assert(memory_description@ =~= legacy_memory(memory));
    memory_description
}

impl AboutCommand {
    /// The embed of the first `/about`: the description with the version,
    /// branch and revision, owner and administrators, and the memory and
    /// cache fields when asked for.
    pub fn run_command(
        &self,
        info: &AboutInfo,
        staff: &Vec<(Option<String>, Option<u64>)>,
        default_owner: u64,
        cache: &CacheStats,
    ) -> (e: EmbedData)
        ensures
            e@ == legacy_about_spec(*info, staff@, default_owner, *cache, self.memory == Some(true), self.cache == Some(true)),
    {
        let description = legacy_description_text(info, staff, default_owner);
        let mut embed = EmbedData::new();
        embed.colour = Some(info.accent_colour);
        embed.title = Some(info.bot_name.clone());
        embed.thumbnail_url = Some(info.bot_avatar.clone());
        embed.footer_text = Some(string_of("Written in twilight.rs!"));
        if self.memory == Some(true) {
            let memory_description = legacy_memory_text(info.memory);
            embed.add_field("Memory Stats", memory_description.as_str(), true);
        }
        if self.cache == Some(true) {
            let cache_text = cache_stats_text(cache);
            embed.add_field("Cache Stats", cache_text.as_str(), true);
        }
        embed.description = Some(description);
        let ghost want = legacy_about_spec(*info, staff@, default_owner, *cache, self.memory == Some(true), self.cache == Some(true));
        assert(embed@.fields =~= want.fields);
        embed
    }
}

} // verus!
