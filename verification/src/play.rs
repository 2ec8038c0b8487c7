//! The play command: follow the author into their voice channel, drop what
//! was queued, and queue the audio they ask for.
//!
//! The command never talks to the chat service or to the audio backend
//! itself. It hands out one [`PlayAction`] at a time; the caller carries it
//! out and comes back with the [`PlayEvent`] that tells how it went.

use crate::request::{PlayTarget, PlayTargetView};
use crate::text::{now_playing, now_playing_text, NOT_IN_VOICE, SOURCE_ERROR};
use crate::voice::{is_joinable, join, Guild, GuildView, JoinRequest};
use vstd::prelude::*;
use vstd::string::*;

verus! {

/// One thing for the caller of a play command to do.
#[derive(Clone, Debug, PartialEq, Eq)]
pub enum PlayAction {
    /// Nothing.
    Nothing,
    /// Look up the guild the command was given in. Answered by
    /// [`PlayEvent::Guild`].
    FetchGuild,
    /// Connect to a voice channel. Answered by [`PlayEvent::Done`], however
    /// the attempt went.
    Join(JoinRequest),
    /// Find the call that the bot holds in this guild and lock it. Answered
    /// by [`PlayEvent::Call`].
    LockCall { guild_id: u64 },
    /// Stop every track queued on the locked call, and unlock the call.
    /// Answered by [`PlayEvent::Done`].
    StopQueue,
    /// Read what the command asks to play. Answered by
    /// [`PlayEvent::Target`].
    ReadTarget,
    /// Search for `query` and take the link of the first hit. Answered by
    /// [`PlayEvent::Searched`].
    Search { query: String },
    /// Make an audio source of the link `url`; `lazy` puts off fetching the
    /// audio until it is played. Answered by [`PlayEvent::Sourced`].
    Source { url: String, lazy: bool },
    /// Queue the source made last on the locked call. `url` is the link it
    /// was made of, and `searched` tells whether a search led to it.
    Enqueue { url: String, searched: bool },
    /// Answer the command's message with `text`. Answered by
    /// [`PlayEvent::Done`].
    Reply { text: String },
    /// Write `text` into the channel the command came from.
    Say { text: String },
}

/// The mathematical content of a [`PlayAction`].
pub enum PlayActionView {
    Nothing,
    FetchGuild,
    Join(JoinRequest),
    LockCall { guild_id: u64 },
    StopQueue,
    ReadTarget,
    Search { query: Seq<char> },
    Source { url: Seq<char>, lazy: bool },
    Enqueue { url: Seq<char>, searched: bool },
    Reply { text: Seq<char> },
    Say { text: Seq<char> },
}

impl View for PlayAction {
    type V = PlayActionView;

    open spec fn view(&self) -> PlayActionView {
        match self {
            PlayAction::Nothing => PlayActionView::Nothing,
            PlayAction::FetchGuild => PlayActionView::FetchGuild,
            PlayAction::Join(request) => PlayActionView::Join(*request),
            PlayAction::LockCall { guild_id } => PlayActionView::LockCall { guild_id: *guild_id },
            PlayAction::StopQueue => PlayActionView::StopQueue,
            PlayAction::ReadTarget => PlayActionView::ReadTarget,
            PlayAction::Search { query } => PlayActionView::Search { query: query@ },
            PlayAction::Source { url, lazy } => PlayActionView::Source { url: url@, lazy: *lazy },
            PlayAction::Enqueue { url, searched } => PlayActionView::Enqueue {
                url: url@,
                searched: *searched,
            },
            PlayAction::Reply { text } => PlayActionView::Reply { text: text@ },
            PlayAction::Say { text } => PlayActionView::Say { text: text@ },
        }
    }
}

/// What the caller of a play command reports.
#[derive(Clone, Debug, PartialEq, Eq)]
pub enum PlayEvent {
    /// A member has given the command; `author` is their user id.
    Invoked { author: u64 },
    /// The guild the command was given in, as it is now.
    Guild(Guild),
    /// The action has been carried out.
    Done,
    /// Whether the bot holds a call in the guild asked about.
    Call(bool),
    /// What the command asks to play.
    Target(PlayTarget),
    /// The link of the first hit of the search; `None` when the search
    /// failed.
    Searched(Option<String>),
    /// Whether an audio source could be made of the link.
    Sourced(bool),
}

/// The mathematical content of a [`PlayEvent`].
pub enum PlayEventView {
    Invoked { author: u64 },
    Guild(GuildView),
    Done,
    Call(bool),
    Target(PlayTargetView),
    Searched(Option<Seq<char>>),
    Sourced(bool),
}

impl View for PlayEvent {
    type V = PlayEventView;

    open spec fn view(&self) -> PlayEventView {
        match self {
            PlayEvent::Invoked { author } => PlayEventView::Invoked { author: *author },
            PlayEvent::Guild(guild) => PlayEventView::Guild(guild@),
            PlayEvent::Done => PlayEventView::Done,
            PlayEvent::Call(found) => PlayEventView::Call(*found),
            PlayEvent::Target(target) => PlayEventView::Target(target@),
            PlayEvent::Searched(link) => PlayEventView::Searched(
                match link {
                    Some(url) => Some(url@),
                    None => None,
                },
            ),
            PlayEvent::Sourced(made) => PlayEventView::Sourced(*made),
        }
    }
}

/// How far a play command has come. Each state but the first and the last
/// waits for the answer to the action that was handed out on entering it.
#[derive(Clone, Debug, PartialEq, Eq)]
pub enum PlayState {
    /// Nothing has happened yet.
    Idle,
    /// Waiting for the guild, to see whether the author is in a voice
    /// channel at all.
    CheckingVoice { author: u64 },
    /// Waiting for the guild, to find the channel to connect to.
    FindingChannel { author: u64 },
    /// Waiting for the connection attempt to end.
    Connecting,
    /// Waiting for the guild whose queue is to be stopped.
    LocatingQueue,
    /// Waiting to hear whether there is a call whose queue can be stopped.
    FindingQueue,
    /// Waiting for the queue to stop.
    StoppingQueue,
    /// Waiting for the command's target.
    ReadingTarget,
    /// Waiting for the guild to play in.
    LocatingCall { target: PlayTarget },
    /// Waiting to hear whether there is a call to play on.
    FindingCall { target: PlayTarget },
    /// Waiting for the search to come back.
    Searching,
    /// Waiting for the audio source of the link that the search found.
    SourcingHit { url: String },
    /// Waiting for the announcement of the hit to go out.
    Announcing { url: String },
    /// Waiting for the audio source of the link that was given.
    SourcingLink { url: String },
    /// The command has run its course.
    Finished,
}

/// The mathematical content of a [`PlayState`].
pub enum PlayStateView {
    Idle,
    CheckingVoice { author: u64 },
    FindingChannel { author: u64 },
    Connecting,
    LocatingQueue,
    FindingQueue,
    StoppingQueue,
    ReadingTarget,
    LocatingCall { target: PlayTargetView },
    FindingCall { target: PlayTargetView },
    Searching,
    SourcingHit { url: Seq<char> },
    Announcing { url: Seq<char> },
    SourcingLink { url: Seq<char> },
    Finished,
}

impl View for PlayState {
    type V = PlayStateView;

    open spec fn view(&self) -> PlayStateView {
        match self {
            PlayState::Idle => PlayStateView::Idle,
            PlayState::CheckingVoice { author } => PlayStateView::CheckingVoice { author: *author },
            PlayState::FindingChannel { author } => PlayStateView::FindingChannel {
                author: *author,
            },
            PlayState::Connecting => PlayStateView::Connecting,
            PlayState::LocatingQueue => PlayStateView::LocatingQueue,
            PlayState::FindingQueue => PlayStateView::FindingQueue,
            PlayState::StoppingQueue => PlayStateView::StoppingQueue,
            PlayState::ReadingTarget => PlayStateView::ReadingTarget,
            PlayState::LocatingCall { target } => PlayStateView::LocatingCall { target: target@ },
            PlayState::FindingCall { target } => PlayStateView::FindingCall { target: target@ },
            PlayState::Searching => PlayStateView::Searching,
            PlayState::SourcingHit { url } => PlayStateView::SourcingHit { url: url@ },
            PlayState::Announcing { url } => PlayStateView::Announcing { url: url@ },
            PlayState::SourcingLink { url } => PlayStateView::SourcingLink { url: url@ },
            PlayState::Finished => PlayStateView::Finished,
        }
    }
}

/// Where a command ends up when it is told something it did not wait for: it
/// gives up and asks for nothing more.
pub open spec fn abandoned() -> (PlayStateView, PlayActionView) {
    (PlayStateView::Finished, PlayActionView::Nothing)
}

/// The reply that no audio source could be made, which ends the command.
pub open spec fn source_failed() -> (PlayStateView, PlayActionView) {
    (PlayStateView::Finished, PlayActionView::Reply { text: SOURCE_ERROR@ })
}

/// The play command, one step at a time: the state that follows `state` on
/// `event`, and what to do next.
///
/// The author must be in a voice channel, or the command ends with a reply
/// that says so. The bot then connects to the channel the author is in (if
/// they still are in one), stops what is queued on the guild's call (if it
/// has one) and reads the target. Without a call in the guild the command
/// ends in silence. A link is made into a source and queued; anything else is
/// searched, and the first hit is made into a source, announced and queued.
/// A failed search is reported in the channel, a source that cannot be made
/// in a reply; either ends the command.
pub open spec fn play_next(state: PlayStateView, event: PlayEventView) -> (
    PlayStateView,
    PlayActionView,
) {
    match (state, event) {
        (PlayStateView::Idle, PlayEventView::Invoked { author }) => (
            PlayStateView::CheckingVoice { author },
            PlayActionView::FetchGuild,
        ),
        (PlayStateView::CheckingVoice { author }, PlayEventView::Guild(guild)) => {
            if guild.channel_of(author).is_some() {
                (PlayStateView::FindingChannel { author }, PlayActionView::FetchGuild)
            } else {
                (PlayStateView::Finished, PlayActionView::Reply { text: NOT_IN_VOICE@ })
            }
        },
        (PlayStateView::FindingChannel { author }, PlayEventView::Guild(guild)) => {
            match guild.join_request(author) {
                Some(request) => (PlayStateView::Connecting, PlayActionView::Join(request)),
                None => (PlayStateView::LocatingQueue, PlayActionView::FetchGuild),
            }
        },
        (PlayStateView::Connecting, PlayEventView::Done) => (
            PlayStateView::LocatingQueue,
            PlayActionView::FetchGuild,
        ),
        (PlayStateView::LocatingQueue, PlayEventView::Guild(guild)) => (
            PlayStateView::FindingQueue,
            PlayActionView::LockCall { guild_id: guild.id },
        ),
        (PlayStateView::FindingQueue, PlayEventView::Call(found)) => {
            if found {
                (PlayStateView::StoppingQueue, PlayActionView::StopQueue)
            } else {
                (PlayStateView::ReadingTarget, PlayActionView::ReadTarget)
            }
        },
        (PlayStateView::StoppingQueue, PlayEventView::Done) => (
            PlayStateView::ReadingTarget,
            PlayActionView::ReadTarget,
        ),
        (PlayStateView::ReadingTarget, PlayEventView::Target(target)) => (
            PlayStateView::LocatingCall { target },
            PlayActionView::FetchGuild,
        ),
        (PlayStateView::LocatingCall { target }, PlayEventView::Guild(guild)) => (
            PlayStateView::FindingCall { target },
            PlayActionView::LockCall { guild_id: guild.id },
        ),
        (PlayStateView::FindingCall { target }, PlayEventView::Call(found)) => {
            if !found {
                (PlayStateView::Finished, PlayActionView::Nothing)
            } else {
                match target {
                    PlayTargetView::Link(url) => (
                        PlayStateView::SourcingLink { url },
                        PlayActionView::Source { url, lazy: true },
                    ),
                    PlayTargetView::Search(query) => (
                        PlayStateView::Searching,
                        PlayActionView::Search { query },
                    ),
                }
            }
        },
        (PlayStateView::Searching, PlayEventView::Searched(link)) => {
            match link {
                Some(url) => (
                    PlayStateView::SourcingHit { url },
                    PlayActionView::Source { url, lazy: true },
                ),
                None => (PlayStateView::Finished, PlayActionView::Say { text: SOURCE_ERROR@ }),
            }
        },
        (PlayStateView::SourcingHit { url }, PlayEventView::Sourced(made)) => {
            if made {
                (
                    PlayStateView::Announcing { url },
                    PlayActionView::Reply { text: now_playing_text(url) },
                )
            } else {
                source_failed()
            }
        },
        (PlayStateView::Announcing { url }, PlayEventView::Done) => (
            PlayStateView::Finished,
            PlayActionView::Enqueue { url, searched: true },
        ),
        (PlayStateView::SourcingLink { url }, PlayEventView::Sourced(made)) => {
            if made {
                (PlayStateView::Finished, PlayActionView::Enqueue { url, searched: false })
            } else {
                source_failed()
            }
        },
        _ => abandoned(),
    }
}

/// The number of steps a play command in `state` can still take, at most.
pub open spec fn play_steps_left(state: PlayStateView) -> nat {
    match state {
        PlayStateView::Idle => 13,
        PlayStateView::CheckingVoice { author } => 12,
        PlayStateView::FindingChannel { author } => 11,
        PlayStateView::Connecting => 10,
        PlayStateView::LocatingQueue => 9,
        PlayStateView::FindingQueue => 8,
        PlayStateView::StoppingQueue => 7,
        PlayStateView::ReadingTarget => 6,
        PlayStateView::LocatingCall { target } => 5,
        PlayStateView::FindingCall { target } => 4,
        PlayStateView::Searching => 3,
        PlayStateView::SourcingHit { url } => 2,
        PlayStateView::Announcing { url } => 1,
        PlayStateView::SourcingLink { url } => 1,
        PlayStateView::Finished => 0,
    }
}

/// The state a play command is in after it was told `events`, one after the
/// other, starting in `state`.
pub open spec fn play_state_after(
    state: PlayStateView,
    events: Seq<PlayEventView>,
) -> PlayStateView
    decreases events.len(),
{
    if events.len() == 0 {
        state
    } else {
        play_state_after(play_next(state, events[0]).0, events.drop_first())
    }
}

/// What a play command that starts in `state` asks for in answer to the event
/// at `index` of `events`, having been told the events before it.
pub open spec fn play_action_at(
    state: PlayStateView,
    events: Seq<PlayEventView>,
    index: int,
) -> PlayActionView
    decreases index,
{
    if index <= 0 {
        play_next(state, events[0]).1
    } else {
        play_action_at(play_next(state, events[0]).0, events.drop_first(), index - 1)
    }
}

/// The actions that reach into a voice channel or work towards playing
/// audio: all but looking up the guild, reading the target and writing to the
/// member.
pub open spec fn serves(action: PlayActionView) -> bool {
    action is Join || action is LockCall || action is StopQueue || action is Search
        || action is Source || action is Enqueue
}

/// Every step of a play command that has not finished brings it closer to
/// its end, whatever happens; a finished command stays finished and asks for
/// nothing.
pub proof fn play_step_advances(state: PlayStateView, event: PlayEventView)
    ensures
        state != PlayStateView::Finished ==> play_steps_left(play_next(state, event).0)
            < play_steps_left(state),
        state == PlayStateView::Finished ==> play_next(state, event) == abandoned(),
{
}

/// A play command ends, whatever it is told: once it has been told as many
/// events as it had steps left, thirteen from the start, it has finished.
pub proof fn play_ends(state: PlayStateView, events: Seq<PlayEventView>)
    requires
        events.len() >= play_steps_left(state),
    ensures
        play_state_after(state, events) == PlayStateView::Finished,
    decreases events.len(),
{
    if events.len() > 0 {
        play_step_advances(state, events[0]);
        play_ends(play_next(state, events[0]).0, events.drop_first());
    }
}

/// A finished play command asks for nothing, however much it is told.
proof fn finished_asks_nothing(events: Seq<PlayEventView>, index: int)
    requires
        0 <= index < events.len(),
    ensures
        play_action_at(PlayStateView::Finished, events, index) == PlayActionView::Nothing,
    decreases index,
{
    if index > 0 {
        finished_asks_nothing(events.drop_first(), index - 1);
    }
}

/// A play command serves members in a voice channel only. Whatever a command
/// is told from its start on, it asks to connect, to touch a call, to search
/// or to make or queue a source only if it was first invoked by a member and
/// then shown a guild in which that member is in a voice channel.
pub proof fn play_serves_voice_members_only(events: Seq<PlayEventView>, index: int)
    requires
        0 <= index < events.len(),
        serves(play_action_at(PlayStateView::Idle, events, index)),
    ensures
        index >= 2,
        events[0] is Invoked,
        events[1] is Guild,
        events[1]->Guild_0.channel_of(events[0]->author) is Some,
{
    let rest = events.drop_first();
    let checking = play_next(PlayStateView::Idle, events[0]).0;
    if index >= 1 {
        if checking == PlayStateView::Finished {
            finished_asks_nothing(rest, index - 1);
        } else if index >= 2 {
            let checked = play_next(checking, rest[0]).0;
            if checked == PlayStateView::Finished {
                finished_asks_nothing(rest.drop_first(), index - 2);
            }
        }
    }
}

impl PlayState {
    /// Tells whether the command has run its course. The action that came
    /// with this state is still to be carried out; no answer to it is
    /// awaited.
    pub fn is_finished(&self) -> (r: bool)
        ensures
            r == (self@ == PlayStateView::Finished),
    {
        match self {
            PlayState::Finished => true,
            _ => false,
        }
    }
}

fn give_up() -> (r: (PlayState, PlayAction))
    ensures
        (r.0@, r.1@) == abandoned(),
{
    (PlayState::Finished, PlayAction::Nothing)
}

fn report_source_failure() -> (r: (PlayState, PlayAction))
    ensures
        (r.0@, r.1@) == source_failed(),
{
    (PlayState::Finished, PlayAction::Reply { text: String::from_str(SOURCE_ERROR) })
}

/// Takes the play command one step further: given the state it is in and what
/// has happened, returns the state it is in now and what to do next.
pub fn play_step(state: PlayState, event: PlayEvent) -> (r: (PlayState, PlayAction))
    ensures
        (r.0@, r.1@) == play_next(state@, event@),
{
    match state {
        PlayState::Idle => match event {
            PlayEvent::Invoked { author } => (
                PlayState::CheckingVoice { author },
                PlayAction::FetchGuild,
            ),
            _ => give_up(),
        },
        PlayState::CheckingVoice { author } => match event {
            PlayEvent::Guild(guild) => {
                if is_joinable(&guild, author) {
                    (PlayState::FindingChannel { author }, PlayAction::FetchGuild)
                } else {
                    let text = String::from_str(NOT_IN_VOICE);
                    (PlayState::Finished, PlayAction::Reply { text })
                }
            },
            _ => give_up(),
        },
        PlayState::FindingChannel { author } => match event {
            PlayEvent::Guild(guild) => match join(&guild, author) {
                Some(request) => (PlayState::Connecting, PlayAction::Join(request)),
                None => (PlayState::LocatingQueue, PlayAction::FetchGuild),
            },
            _ => give_up(),
        },
        PlayState::Connecting => match event {
            PlayEvent::Done => (PlayState::LocatingQueue, PlayAction::FetchGuild),
            _ => give_up(),
        },
        PlayState::LocatingQueue => match event {
            PlayEvent::Guild(guild) => (
                PlayState::FindingQueue,
                PlayAction::LockCall { guild_id: guild.id },
            ),
            _ => give_up(),
        },
        PlayState::FindingQueue => match event {
            PlayEvent::Call(found) => {
                if found {
                    (PlayState::StoppingQueue, PlayAction::StopQueue)
                } else {
                    (PlayState::ReadingTarget, PlayAction::ReadTarget)
                }
            },
            _ => give_up(),
        },
        PlayState::StoppingQueue => match event {
            PlayEvent::Done => (PlayState::ReadingTarget, PlayAction::ReadTarget),
            _ => give_up(),
        },
        PlayState::ReadingTarget => match event {
            PlayEvent::Target(target) => (
                PlayState::LocatingCall { target },
                PlayAction::FetchGuild,
            ),
            _ => give_up(),
        },
        PlayState::LocatingCall { target } => match event {
            PlayEvent::Guild(guild) => (
                PlayState::FindingCall { target },
                PlayAction::LockCall { guild_id: guild.id },
            ),
            _ => give_up(),
        },
        PlayState::FindingCall { target } => match event {
            PlayEvent::Call(found) => {
                if !found {
                    (PlayState::Finished, PlayAction::Nothing)
                } else {
                    match target {
                        PlayTarget::Link(url) => {
                            let link = url.clone();
                            (
                                PlayState::SourcingLink { url },
                                PlayAction::Source { url: link, lazy: true },
                            )
                        },
                        PlayTarget::Search(query) => (
                            PlayState::Searching,
                            PlayAction::Search { query },
                        ),
                    }
                }
            },
            _ => give_up(),
        },
        PlayState::Searching => match event {
            PlayEvent::Searched(link) => match link {
                Some(url) => {
                    let link = url.clone();
                    (
                        PlayState::SourcingHit { url },
                        PlayAction::Source { url: link, lazy: true },
                    )
                },
                None => {
                    let text = String::from_str(SOURCE_ERROR);
                    (PlayState::Finished, PlayAction::Say { text })
                },
            },
            _ => give_up(),
        },
        PlayState::SourcingHit { url } => match event {
            PlayEvent::Sourced(made) => {
                if made {
                    let text = now_playing(url.as_str());
                    (PlayState::Announcing { url }, PlayAction::Reply { text })
                } else {
                    report_source_failure()
                }
            },
            _ => give_up(),
        },
        PlayState::Announcing { url } => match event {
            PlayEvent::Done => (PlayState::Finished, PlayAction::Enqueue { url, searched: true }),
            _ => give_up(),
        },
        PlayState::SourcingLink { url } => match event {
            PlayEvent::Sourced(made) => {
                if made {
                    (PlayState::Finished, PlayAction::Enqueue { url, searched: false })
                } else {
                    report_source_failure()
                }
            },
            _ => give_up(),
        },
        PlayState::Finished => give_up(),
    }
}

} // verus!
