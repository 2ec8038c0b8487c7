//! The leave command: drop the guild's call, and say so if that fails.
//!
//! Like the play command it hands out one [`LeaveAction`] at a time and is
//! told by a [`LeaveEvent`] how it went.

use crate::text::{failure, failure_text};
use vstd::prelude::*;

verus! {

/// One thing for the caller of a leave command to do.
#[derive(Clone, Debug, PartialEq, Eq)]
pub enum LeaveAction {
    /// Nothing.
    Nothing,
    /// Look up the guild the command was given in. Answered by
    /// [`LeaveEvent::Guild`].
    FetchGuild,
    /// See whether the bot holds a call in this guild. Answered by
    /// [`LeaveEvent::Call`].
    FindCall { guild_id: u64 },
    /// Leave the voice channel of this guild and drop its call. Answered by
    /// [`LeaveEvent::Removed`].
    Remove { guild_id: u64 },
    /// Write `text` into the channel the command came from.
    Say { text: String },
}

/// The mathematical content of a [`LeaveAction`].
pub enum LeaveActionView {
    Nothing,
    FetchGuild,
    FindCall { guild_id: u64 },
    Remove { guild_id: u64 },
    Say { text: Seq<char> },
}

impl View for LeaveAction {
    type V = LeaveActionView;

    open spec fn view(&self) -> LeaveActionView {
        match self {
            LeaveAction::Nothing => LeaveActionView::Nothing,
            LeaveAction::FetchGuild => LeaveActionView::FetchGuild,
            LeaveAction::FindCall { guild_id } => LeaveActionView::FindCall { guild_id: *guild_id },
            LeaveAction::Remove { guild_id } => LeaveActionView::Remove { guild_id: *guild_id },
            LeaveAction::Say { text } => LeaveActionView::Say { text: text@ },
        }
    }
}

/// What the caller of a leave command reports.
#[derive(Clone, Debug, PartialEq, Eq)]
pub enum LeaveEvent {
    /// A member has given the command.
    Invoked,
    /// The id of the guild the command was given in.
    Guild { id: u64 },
    /// Whether the bot holds a call in the guild asked about.
    Call(bool),
    /// How leaving went: `None` when it went well, else the description of
    /// what went wrong.
    Removed(Option<String>),
}

/// The mathematical content of a [`LeaveEvent`].
pub enum LeaveEventView {
    Invoked,
    Guild { id: u64 },
    Call(bool),
    Removed(Option<Seq<char>>),
}

impl View for LeaveEvent {
    type V = LeaveEventView;

    open spec fn view(&self) -> LeaveEventView {
        match self {
            LeaveEvent::Invoked => LeaveEventView::Invoked,
            LeaveEvent::Guild { id } => LeaveEventView::Guild { id: *id },
            LeaveEvent::Call(found) => LeaveEventView::Call(*found),
            LeaveEvent::Removed(failed) => LeaveEventView::Removed(
                match failed {
                    Some(detail) => Some(detail@),
                    None => None,
                },
            ),
        }
    }
}

/// How far a leave command has come.
#[derive(Clone, Copy, Debug, PartialEq, Eq)]
pub enum LeaveState {
    /// Nothing has happened yet.
    Idle,
    /// Waiting for the guild to leave.
    Locating,
    /// Waiting to hear whether the bot holds a call in this guild.
    Finding { guild_id: u64 },
    /// Waiting for the bot to have left.
    Removing,
    /// The command has run its course.
    Finished,
}

/// The leave command, one step at a time: the state that follows `state` on
/// `event`, and what to do next.
///
/// Where the bot holds a call in the guild, it leaves and drops the call; a
/// failure to do so is reported in the channel. Where it holds none, the
/// command ends in silence, as it does when it is told something it did not
/// wait for.
pub open spec fn leave_next(state: LeaveState, event: LeaveEventView) -> (
    LeaveState,
    LeaveActionView,
) {
    match (state, event) {
        (LeaveState::Idle, LeaveEventView::Invoked) => (
            LeaveState::Locating,
            LeaveActionView::FetchGuild,
        ),
        (LeaveState::Locating, LeaveEventView::Guild { id }) => (
            LeaveState::Finding { guild_id: id },
            LeaveActionView::FindCall { guild_id: id },
        ),
        (LeaveState::Finding { guild_id }, LeaveEventView::Call(true)) => (
            LeaveState::Removing,
            LeaveActionView::Remove { guild_id },
        ),
        (LeaveState::Removing, LeaveEventView::Removed(Some(detail))) => (
            LeaveState::Finished,
            LeaveActionView::Say { text: failure_text(detail) },
        ),
        _ => (LeaveState::Finished, LeaveActionView::Nothing),
    }
}

/// The number of steps a leave command in `state` can still take, at most.
pub open spec fn leave_steps_left(state: LeaveState) -> nat {
    match state {
        LeaveState::Idle => 4,
        LeaveState::Locating => 3,
        LeaveState::Finding { guild_id } => 2,
        LeaveState::Removing => 1,
        LeaveState::Finished => 0,
    }
}

/// The state a leave command is in after it was told `events`, one after the
/// other, starting in `state`.
pub open spec fn leave_state_after(state: LeaveState, events: Seq<LeaveEventView>) -> LeaveState
    decreases events.len(),
{
    if events.len() == 0 {
        state
    } else {
        leave_state_after(leave_next(state, events[0]).0, events.drop_first())
    }
}

/// Every step of a leave command that has not finished brings it closer to
/// its end, whatever happens; a finished command stays finished and asks for
/// nothing.
pub proof fn leave_step_advances(state: LeaveState, event: LeaveEventView)
    ensures
        state != LeaveState::Finished ==> leave_steps_left(leave_next(state, event).0)
            < leave_steps_left(state),
        state == LeaveState::Finished ==> leave_next(state, event) == (
            LeaveState::Finished,
            LeaveActionView::Nothing,
        ),
{
}

/// A leave command ends, whatever it is told: once it has been told as many
/// events as it had steps left, four from the start, it has finished.
pub proof fn leave_ends(state: LeaveState, events: Seq<LeaveEventView>)
    requires
        events.len() >= leave_steps_left(state),
    ensures
        leave_state_after(state, events) == LeaveState::Finished,
    decreases events.len(),
{
    if events.len() > 0 {
        leave_step_advances(state, events[0]);
        leave_ends(leave_next(state, events[0]).0, events.drop_first());
    }
}

impl LeaveState {
    /// Tells whether the command has run its course. The action that came
    /// with this state is still to be carried out; no answer to it is
    /// awaited.
    pub fn is_finished(&self) -> (r: bool)
        ensures
            r == (*self == LeaveState::Finished),
    {
        match self {
            LeaveState::Finished => true,
            _ => false,
        }
    }
}

/// Takes the leave command one step further: given the state it is in and
/// what has happened, returns the state it is in now and what to do next.
pub fn leave_step(state: LeaveState, event: LeaveEvent) -> (r: (LeaveState, LeaveAction))
    ensures
        (r.0, r.1@) == leave_next(state, event@),
{
    match state {
        LeaveState::Idle => match event {
            LeaveEvent::Invoked => (LeaveState::Locating, LeaveAction::FetchGuild),
            _ => (LeaveState::Finished, LeaveAction::Nothing),
        },
        LeaveState::Locating => match event {
            LeaveEvent::Guild { id } => (
                LeaveState::Finding { guild_id: id },
                LeaveAction::FindCall { guild_id: id },
            ),
            _ => (LeaveState::Finished, LeaveAction::Nothing),
        },
        LeaveState::Finding { guild_id } => match event {
            LeaveEvent::Call(found) => {
                if found {
                    (LeaveState::Removing, LeaveAction::Remove { guild_id })
                } else {
                    (LeaveState::Finished, LeaveAction::Nothing)
                }
            },
            _ => (LeaveState::Finished, LeaveAction::Nothing),
        },
        LeaveState::Removing => match event {
            LeaveEvent::Removed(failed) => match failed {
                Some(detail) => (
                    LeaveState::Finished,
                    LeaveAction::Say { text: failure(detail.as_str()) },
                ),
                None => (LeaveState::Finished, LeaveAction::Nothing),
            },
            _ => (LeaveState::Finished, LeaveAction::Nothing),
        },
        LeaveState::Finished => (LeaveState::Finished, LeaveAction::Nothing),
    }
}

} // verus!
