//! Which command handles an interaction, by the command's name.
use vstd::prelude::*;
use crate::text::str_eq;

verus! {

/// The commands an interaction can go to.
#[derive(PartialEq, Eq, Structural, Clone, Copy, Debug)]
pub enum Route {
    About,
    Ban,
    Base64,
    Boop,
    Dice,
    UwU,
    Ping,
    Owner,
    Unban,
    Kick,
    Warn,
    /// No command has that name: the user is told it is unknown.
    UnknownCommand,
}

/// The command for a name; the base64 command also takes the names of its
/// buttons. Ping, unban, kick and warn are known only to the full set of
/// commands.
pub open spec fn route_spec(name: Seq<char>, full: bool) -> Route {
    if name == "about"@ {
        Route::About
    } else if name == "ban"@ {
        Route::Ban
    } else if name == "base64"@ || name == "base64-encode"@ || name == "base64-decode"@ {
        Route::Base64
    } else if name == "boop"@ {
        Route::Boop
    } else if name == "dice"@ {
        Route::Dice
    } else if name == "uwu"@ {
        Route::UwU
    } else if full && name == "ping"@ {
        Route::Ping
    } else if name == "owner"@ {
        Route::Owner
    } else if full && name == "unban"@ {
        Route::Unban
    } else if full && name == "kick"@ {
        Route::Kick
    } else if full && name == "warn"@ {
        Route::Warn
    } else {
        Route::UnknownCommand
    }
}

/// The command that handles an interaction named `name`, among the full set
/// of commands (`full`) or the first, smaller one.
pub fn interaction_handler(name: &str, full: bool) -> (r: Route)
    ensures
        r == route_spec(name@, full),
{
    if str_eq(name, "about") {
        Route::About
    } else if str_eq(name, "ban") {
        Route::Ban
    } else if str_eq(name, "base64") || str_eq(name, "base64-encode") || str_eq(name, "base64-decode") {
        Route::Base64
    } else if str_eq(name, "boop") {
        Route::Boop
    } else if str_eq(name, "dice") {
        Route::Dice
    } else if str_eq(name, "uwu") {
        Route::UwU
    } else if full && str_eq(name, "ping") {
        Route::Ping
    } else if str_eq(name, "owner") {
        Route::Owner
    } else if full && str_eq(name, "unban") {
        Route::Unban
    } else if full && str_eq(name, "kick") {
        Route::Kick
    } else if full && str_eq(name, "warn") {
        Route::Warn
    } else {
        Route::UnknownCommand
    }
}

/// The names of the commands registered at startup, in order: the full set,
/// or the first, smaller one.
pub open spec fn command_names(full: bool) -> Seq<Seq<char>> {
    if full {
        seq!["about"@, "ban"@, "base64"@, "boop"@, "dice"@, "uwu"@, "ping"@, "owner"@, "kick"@, "warn"@, "unban"@]
    } else {
        seq!["about"@, "ban"@, "base64"@, "boop"@, "dice"@, "uwu"@, "owner"@]
    }
}

/// Every registered command is routed to a handler.
pub proof fn law_registered_commands_are_routed(full: bool, i: int)
    requires
        0 <= i < command_names(full).len(),
    ensures
        route_spec(command_names(full)[i], full) != Route::UnknownCommand,
{
    reveal_strlit("about");
    reveal_strlit("ban");
    reveal_strlit("base64");
    reveal_strlit("base64-encode");
    reveal_strlit("base64-decode");
    reveal_strlit("boop");
    reveal_strlit("dice");
    reveal_strlit("uwu");
    reveal_strlit("ping");
    reveal_strlit("owner");
    reveal_strlit("kick");
    reveal_strlit("warn");
    reveal_strlit("unban");
}

} // verus!
