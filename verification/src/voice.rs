//! A guild as far as the bot reads it: which member sits in which voice
//! channel.

use std::collections::HashMap;
use vstd::prelude::*;

verus! {

broadcast use vstd::std_specs::hash::group_hash_axioms;

/// The voice connection of one member: the channel they are in, if any.
#[derive(Clone, Copy, Debug, PartialEq, Eq)]
pub struct VoiceState {
    pub channel_id: Option<u64>,
}

/// A snapshot of a guild: its id and the voice state of each member that has
/// one, keyed by the member's user id.
#[derive(Clone, Debug, PartialEq, Eq)]
pub struct Guild {
    pub id: u64,
    pub voice_states: HashMap<u64, VoiceState>,
}

/// The mathematical content of a [`Guild`].
pub struct GuildView {
    pub id: u64,
    pub voice_states: Map<u64, VoiceState>,
}

impl View for Guild {
    type V = GuildView;

    open spec fn view(&self) -> GuildView {
        GuildView { id: self.id, voice_states: self.voice_states@ }
    }
}

/// Where to connect: a voice channel of a guild.
#[derive(Clone, Copy, Debug, PartialEq, Eq)]
pub struct JoinRequest {
    pub guild_id: u64,
    pub channel_id: u64,
}

impl GuildView {
    /// The voice channel `user` is in: none when the guild holds no voice
    /// state for them, or holds one that names no channel.
    pub open spec fn channel_of(self, user: u64) -> Option<u64> {
        if self.voice_states.contains_key(user) {
            self.voice_states[user].channel_id
        } else {
            None
        }
    }

    /// The connection that brings the bot to `user`, if they are in a voice
    /// channel.
    pub open spec fn join_request(self, user: u64) -> Option<JoinRequest> {
        match self.channel_of(user) {
            Some(channel_id) => Some(JoinRequest { guild_id: self.id, channel_id }),
            None => None,
        }
    }
}

/// Looks up the voice channel `user` is in.
pub fn voice_channel(guild: &Guild, user: u64) -> (r: Option<u64>)
    ensures
        r == guild@.channel_of(user),
{
    match guild.voice_states.get(&user) {
        Some(state) => state.channel_id,
        None => None,
    }
}

/// Tells whether the bot can follow `user` into a voice channel, that is
/// whether they are in one.
pub fn is_joinable(guild: &Guild, user: u64) -> (r: bool)
    ensures
        r == guild@.channel_of(user).is_some(),
{
    voice_channel(guild, user).is_some()
}

/// Says where the bot has to connect to be with `user`; nowhere when they
/// are in no voice channel.
pub fn join(guild: &Guild, user: u64) -> (r: Option<JoinRequest>)
    ensures
        r == guild@.join_request(user),
{
    match voice_channel(guild, user) {
        Some(channel_id) => Some(JoinRequest { guild_id: guild.id, channel_id }),
        None => None,
    }
}

} // verus!
