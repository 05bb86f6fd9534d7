//! Command logic of the Luro Discord bot, with its behaviour stated and proved.
use vstd::prelude::*;

pub mod text;
pub mod about;
pub mod ai;
pub mod response;
pub mod roles;
pub mod routing;
pub mod base64;
pub mod boop;
pub mod character;
pub mod dice;
pub mod heck;
pub mod hello;
pub mod info;
pub mod info_command;
pub mod lewd;
pub mod marry;
pub mod modals;
pub mod moderation;
pub mod music;
pub mod nickname;
pub mod number;
pub mod owner;
pub mod ping;
pub mod quote;

verus! {

/// `/luro`: do things to me! Oh my...
#[derive(Debug)]
pub enum Command {
    Nickname(nickname::Command),
}

} // verus!
