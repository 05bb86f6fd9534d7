//! `/music`: the player's statistics, and playing a track.
use vstd::prelude::*;
use crate::response::{empty_embed, empty_reply, opt_view, EmbedData, EmbedFieldView, EmbedView, Reply, ReplyView};
use crate::text::{dec_int, dec_nat, push_dec_i64, push_dec_u64, push_str, string_of};

verus! {

/// The music commands only work in a guild.
#[derive(PartialEq, Eq, Structural, Clone, Copy, Debug)]
pub enum MusicError {
    NotGuild,
}

/// The guild the player is in: only inside a guild.
pub fn music_guild(guild: Option<u64>) -> (r: Result<u64, MusicError>)
    ensures
        r == match guild { Some(g) => Ok::<u64, MusicError>(g), None => Err(MusicError::NotGuild) },
{
    match guild {
        Some(g) => Ok(g),
        None => Err(MusicError::NotGuild),
    }
}

/// The memory of the music node, in bytes.
#[derive(Clone, Copy, Debug)]
pub struct NodeMemory {
    pub allocated: u64,
    pub used: u64,
    pub reservable: u64,
    pub free: u64,
}

/// The statistics of the music node; the loads are already written with two
/// decimals.
#[derive(Debug)]
pub struct NodeStats {
    pub cores: u64,
    pub lavalink_load: String,
    pub system_load: String,
    pub memory: NodeMemory,
    pub players: u64,
    pub playing_players: u64,
    pub uptime: u64,
}

/// `/music info`: information about the music player.
#[derive(Debug)]
pub struct InfoCommand {}

/// Bytes in whole megabytes.
pub open spec fn mb(bytes: u64) -> nat {
    (bytes / 1024 / 1024) as nat
}

/// The node's consumption and memory.
pub open spec fn node_description(s: NodeStats) -> Seq<char> {
    "**Consumption:** `"@ + dec_nat(s.cores as nat) + "` cores assigned - `"@ + s.lavalink_load@ + "` lavalink load - `"@
        + s.system_load@ + "` system load\n"@ + "**Memory:** `"@ + dec_nat(mb(s.memory.allocated)) + "MB` allocated - `"@
        + dec_nat(mb(s.memory.used)) + "MB` used - `"@ + dec_nat(mb(s.memory.reservable)) + "MB` reservable - `"@
        + dec_nat(mb(s.memory.free)) + "MB` free\n"@
}

impl InfoCommand {
    /// The node's statistics: its consumption and memory, its players and
    /// uptime.
    pub fn interaction_command(&self, s: &NodeStats, accent: u32) -> (r: Reply)
        ensures
            r@ == (ReplyView {
                embeds: seq![EmbedView {
                    description: Some(node_description(*s)),
                    fields: seq![
                        EmbedFieldView { name: "Total Players"@, value: dec_nat(s.players as nat), inline: true },
                        EmbedFieldView { name: "Players playing Music"@, value: dec_nat(s.playing_players as nat), inline: true },
                        EmbedFieldView { name: "Uptime"@, value: dec_nat(s.uptime as nat), inline: true },
                    ],
                    colour: Some(accent),
                    ..empty_embed()
                }],
                ..empty_reply()
            }),
    {
        let mut d = string_of("**Consumption:** `");
        push_dec_u64(&mut d, s.cores);
        push_str(&mut d, "` cores assigned - `");
        push_str(&mut d, s.lavalink_load.as_str());
        push_str(&mut d, "` lavalink load - `");
        push_str(&mut d, s.system_load.as_str());
        push_str(&mut d, "` system load\n");
        push_str(&mut d, "**Memory:** `");
        push_dec_u64(&mut d, s.memory.allocated / 1024 / 1024);
        push_str(&mut d, "MB` allocated - `");
        push_dec_u64(&mut d, s.memory.used / 1024 / 1024);
        push_str(&mut d, "MB` used - `");
        push_dec_u64(&mut d, s.memory.reservable / 1024 / 1024);
        push_str(&mut d, "MB` reservable - `");
        push_dec_u64(&mut d, s.memory.free / 1024 / 1024);
        push_str(&mut d, "MB` free\n");
        assert(d@ =~= node_description(*s));
        let mut e = EmbedData::new();
        e.description = Some(d);
        e.add_field("Total Players", crate::text::dec_string(s.players).as_str(), true);
        e.add_field("Players playing Music", crate::text::dec_string(s.playing_players).as_str(), true);
        e.add_field("Uptime", crate::text::dec_string(s.uptime).as_str(), true);
        e.colour = Some(accent);
        let mut r = Reply::new();
        let ghost ev = e@;
        r.embeds.push(e);
        assert(ev.fields =~= seq![
            EmbedFieldView { name: "Total Players"@, value: dec_nat(s.players as nat), inline: true },
            EmbedFieldView { name: "Players playing Music"@, value: dec_nat(s.playing_players as nat), inline: true },
            EmbedFieldView { name: "Uptime"@, value: dec_nat(s.uptime as nat), inline: true },
        ]);
        assert(r@.embeds =~= seq![ev]);
        r
    }
}

/// How the music node answered a search.
#[derive(PartialEq, Eq, Structural, Clone, Copy, Debug)]
pub enum LoadType {
    LoadFailed,
    NoMatches,
    SearchResult,
    TrackLoaded,
    PlaylistLoaded,
    Other,
}

/// The name logged for how the node answered.
pub fn load_type_name(t: LoadType) -> (s: &'static str)
    ensures
        s@ == match t {
            LoadType::LoadFailed => "LoadFailed"@,
            LoadType::NoMatches => "Failed"@,
            LoadType::SearchResult => "SearchResult"@,
            LoadType::TrackLoaded => "TrackLoaded"@,
            LoadType::PlaylistLoaded => "PlaylistLoaded"@,
            LoadType::Other => "Unknown"@,
        },
{
    match t {
        LoadType::LoadFailed => "LoadFailed",
        LoadType::NoMatches => "Failed",
        LoadType::SearchResult => "SearchResult",
        LoadType::TrackLoaded => "TrackLoaded",
        LoadType::PlaylistLoaded => "PlaylistLoaded",
        LoadType::Other => "Unknown",
    }
}

/// `format!("{:#?}", ..)` of an optional text: how std's pretty debug
/// output writes it.
pub uninterp spec fn pretty_debug(s: Option<Seq<char>>) -> Seq<char>;

/// `format!("{:#?}", s)`: std's pretty debug output of an optional text,
/// `None` for none; for a text, its escaping is std's and is only named.
#[verifier::external_body]
fn pretty_debug_string(s: &Option<String>) -> (r: String)
    ensures
        r@ == pretty_debug(opt_view(*s)),
        *s is None ==> r@ == "None"@,
{
    format!("{:#?}", s)
}

/// `/music play`: give me a link or something and I'll try to play it.
#[derive(Debug)]
pub struct PlayCommand {
    /// What you would like me to play
    pub song: String,
    /// Sets the volume between 0 and 1000! 10 is the default
    pub volume: Option<i64>,
}

/// What the player answers: the track's title and author with the volume,
/// or that nothing was found.
pub open spec fn play_text(track: Option<(Option<String>, Option<String>)>, volume: i64) -> Seq<char> {
    match track {
        None => "Didn't find any results"@,
        Some((Some(title), Some(author))) => "- Playing **"@ + title@ + "** by **"@ + author@ + "** - Volume "@
            + dec_int(volume as int),
        Some((title, author)) => "- Playing **"@ + pretty_debug(opt_view(title)) + "** by **"@
            + pretty_debug(opt_view(author)) + "** - Volume "@ + dec_int(volume as int),
    }
}

impl PlayCommand {
    /// The volume to play at: as asked, else 10.
    pub fn volume(&self) -> (v: i64)
        ensures
            v == match self.volume { Some(v) => v, None => 10 },
    {
        match self.volume {
            Some(v) => v,
            None => 10,
        }
    }

    /// The answer for the first track found (its title and author), if
    /// any.
    pub fn content(track: &Option<(Option<String>, Option<String>)>, volume: i64) -> (r: Reply)
        ensures
            r@ == (ReplyView { content: Some(play_text(*track, volume)), ..empty_reply() }),
    {
        match track {
            None => Reply::text(string_of("Didn't find any results")),
            Some((title, author)) => {
                let mut s = string_of("- Playing **");
                match (title, author) {
                    (Some(t), Some(a)) => {
                        push_str(&mut s, t.as_str());
                        push_str(&mut s, "** by **");
                        push_str(&mut s, a.as_str());
                    },
                    _ => {
                        push_str(&mut s, pretty_debug_string(title).as_str());
                        push_str(&mut s, "** by **");
                        push_str(&mut s, pretty_debug_string(author).as_str());
                    },
                }
                push_str(&mut s, "** - Volume ");
                push_dec_i64(&mut s, volume);
                Reply::text(s)
            },
        }
    }
}

} // verus!
