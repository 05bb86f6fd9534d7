//! `/character profile`: show a character profile.
use vstd::prelude::*;
use crate::character::{
    character_not_found, character_response, image_pool_spec, not_found_text, picked_from, profile_nsfw,
    profile_nsfw_spec, profile_reply, CharacterImage, CharacterProfile,
};
use crate::response::{empty_reply, Reply, ReplyView};

verus! {

/// `/character profile`: fetch a user's character profile.
#[derive(Debug)]
pub struct Command {
    /// The fursona to get
    pub name: String,
    /// The type of profile to fetch. Defaults to the channel type.
    pub nsfw: Option<bool>,
    /// Fetch the character name from someone else.
    pub user: Option<u64>,
}

/// Whose profile is shown, as the answer names them.
#[derive(Debug)]
pub struct ProfileOwner {
    pub user_id: u64,
    pub name: String,
    pub avatar: String,
}

impl Command {
    /// Which profile to show in a channel whose NSFW setting is
    /// `channel_nsfw`; `None` when an NSFW profile was asked for in a SFW
    /// channel.
    pub fn profile_kind(&self, channel_nsfw: Option<bool>) -> (r: Option<bool>)
        ensures
            r == profile_nsfw_spec(self.nsfw, channel_nsfw),
    {
        profile_nsfw(self.nsfw, channel_nsfw)
    }

    /// The answer once the owner's profile of that name was looked up: the
    /// profile, or the list of the profiles they have.
    pub fn respond(
        &self,
        nsfw: bool,
        owner: &ProfileOwner,
        found: &Option<CharacterProfile>,
        characters: &Vec<CharacterProfile>,
        images: &Vec<CharacterImage>,
        accent: u32,
    ) -> (r: Reply)
        ensures
            *found is None ==> r@ == (ReplyView {
                content: Some(not_found_text(owner.user_id, self.name@, characters@)),
                ephemeral: true,
                ..empty_reply()
            }),
            *found matches Some(c) ==> exists|image: Option<Seq<char>>|
                #[trigger] picked_from(image_pool_spec(images@, nsfw), image)
                    && r@ == profile_reply(c, image, nsfw, owner.name@, owner.avatar@, accent),
    {
        match found {
            None => character_not_found(owner.user_id, self.name.as_str(), characters),
            Some(c) => character_response(c, images, nsfw, owner.name.as_str(), owner.avatar.as_str(), accent),
        }
    }
}

} // verus!
