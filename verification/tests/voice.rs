use jukebox::voice::{is_joinable, join, voice_channel, Guild, JoinRequest, VoiceState};
use std::collections::HashMap;

fn guild_of(id: u64, members: &[(u64, Option<u64>)]) -> Guild {
    let mut voice_states = HashMap::new();
    for (user, channel_id) in members {
        voice_states.insert(*user, VoiceState { channel_id: *channel_id });
    }
    Guild { id, voice_states }
}

#[test]
fn member_in_a_channel_is_found_there() {
    let guild = guild_of(10, &[(1, Some(100)), (2, Some(200))]);
    assert_eq!(voice_channel(&guild, 1), Some(100));
    assert_eq!(voice_channel(&guild, 2), Some(200));
}

#[test]
fn member_without_voice_state_is_in_no_channel() {
    let guild = guild_of(10, &[(1, Some(100))]);
    assert_eq!(voice_channel(&guild, 3), None);
    assert_eq!(voice_channel(&guild_of(10, &[]), 1), None);
}

#[test]
fn voice_state_without_channel_is_no_channel() {
    let guild = guild_of(10, &[(1, None), (2, Some(200))]);
    assert_eq!(voice_channel(&guild, 1), None);
}

#[test]
fn joinable_means_in_a_channel() {
    let guild = guild_of(10, &[(1, Some(100)), (2, None)]);
    assert!(is_joinable(&guild, 1));
    assert!(!is_joinable(&guild, 2));
    assert!(!is_joinable(&guild, 3));
}

#[test]
fn join_goes_to_the_members_channel_in_this_guild() {
    let guild = guild_of(10, &[(1, Some(100)), (2, Some(200)), (3, None)]);
    assert_eq!(join(&guild, 1), Some(JoinRequest { guild_id: 10, channel_id: 100 }));
    assert_eq!(join(&guild, 2), Some(JoinRequest { guild_id: 10, channel_id: 200 }));
    assert_eq!(join(&guild, 3), None);
    assert_eq!(join(&guild, 4), None);
}

#[test]
fn ids_at_the_limits_are_kept() {
    let guild = guild_of(u64::MAX, &[(0, Some(u64::MAX)), (u64::MAX, Some(0))]);
    assert_eq!(join(&guild, 0), Some(JoinRequest { guild_id: u64::MAX, channel_id: u64::MAX }));
    assert_eq!(join(&guild, u64::MAX), Some(JoinRequest { guild_id: u64::MAX, channel_id: 0 }));
}
