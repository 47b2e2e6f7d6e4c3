//! What happened between two observations of the game.

use crate::melee::{GameInfo, Status};
use vstd::prelude::*;

verus! {

/// A state that an event of type `T` always moves on.
pub trait Advance<T> {
    type Output;

    fn advance(self, tag: T) -> Self::Output;
}

/// A value that can be compared with a later one of its kind, giving the
/// events of type `T` that lie between the two.
pub trait Detect<T> {
    fn detect(&self, new: &Self) -> Vec<T>;
}

/// A state that an event of type `T` may fail to move on.
pub trait TryAdvance<T> {
    type Error;

    type Output;

    fn try_advance(self, tag: T) -> Result<Self::Output, Self::Error>;
}

/// A change of the game's status that the player of music cares about.
#[derive(Clone, Copy, Debug, PartialEq, Eq, Structural)]
pub enum Event {
    GameJoin(GameJoinEvent),
    GameLeave(GameLeaveEvent),
    GamePause(GamePauseEvent),
    GameResume(GameResumeEvent),
}

/// A match ended or was left.
#[derive(Clone, Copy, Debug, PartialEq, Eq, Structural)]
pub struct GameLeaveEvent;

/// A match began. `info` is the observation in which it was first seen.
#[derive(Clone, Copy, Debug, PartialEq, Eq, Structural)]
pub struct GameJoinEvent {
    pub info: GameInfo,
}

/// The running match was paused.
#[derive(Clone, Copy, Debug, PartialEq, Eq, Structural)]
pub struct GamePauseEvent;

/// The paused match went on.
#[derive(Clone, Copy, Debug, PartialEq, Eq, Structural)]
pub struct GameResumeEvent;

/// The events between an earlier and a later observation. Only the two
/// statuses decide; a change of status gives at most one event, and no
/// event stands for a status that was passed over in between.
pub open spec fn transition(old: GameInfo, new: GameInfo) -> Seq<Event> {
    match (old.status, new.status) {
        (Status::Menu, Status::Playing) => seq![Event::GameJoin(GameJoinEvent { info: new })],
        (Status::Playing, Status::Menu) => seq![Event::GameLeave(GameLeaveEvent)],
        (Status::Paused, Status::Menu) => seq![Event::GameLeave(GameLeaveEvent)],
        (Status::Playing, Status::Paused) => seq![Event::GamePause(GamePauseEvent)],
        (Status::Paused, Status::Playing) => seq![Event::GameResume(GameResumeEvent)],
        _ => Seq::empty(),
    }
}

impl Detect<Event> for GameInfo {
    fn detect(&self, new: &Self) -> (events: Vec<Event>)
        ensures
            events@ == transition(*self, *new),
    {
        match (self.status, new.status) {
            (Status::Playing, Status::Paused) => vec![Event::GamePause(GamePauseEvent)],
            (Status::Paused, Status::Playing) => vec![Event::GameResume(GameResumeEvent)],
            (Status::Playing, Status::Menu) | (Status::Paused, Status::Menu) => {
                vec![Event::GameLeave(GameLeaveEvent)]
            },
            (Status::Menu, Status::Playing) => vec![Event::GameJoin(GameJoinEvent { info: *new })],
            _ => vec![],
        }
    }
}

/// Two observations of one status have no event between them, whatever
/// their stages.
pub proof fn lemma_no_event_without_change(old: GameInfo, new: GameInfo)
    requires
        old.status == new.status,
    ensures
        transition(old, new) == Seq::<Event>::empty(),
{
}

/// Between two observations lies at most one event, and which one depends
/// on the two statuses alone: the stages of the earlier and of the later
/// observation play no part in the choice.
pub proof fn lemma_at_most_one_event(old: GameInfo, new: GameInfo, other_old: GameInfo)
    requires
        old.status == other_old.status,
    ensures
        transition(old, new).len() <= 1,
        transition(other_old, new) == transition(old, new),
{
}

/// A match that is left gives one leave and nothing before it, also where
/// it is left without a pause in between.
pub proof fn lemma_leave_is_single(old: GameInfo, new: GameInfo)
    requires
        old.status != Status::Menu,
        new.status == Status::Menu,
    ensures
        transition(old, new) == seq![Event::GameLeave(GameLeaveEvent)],
{
}

/// A join carries the later observation, and with it the later stage,
/// never the earlier one.
pub proof fn lemma_join_carries_new(old: GameInfo, new: GameInfo, i: int)
    requires
        0 <= i < transition(old, new).len(),
        transition(old, new)[i] is GameJoin,
    ensures
        transition(old, new)[i] == Event::GameJoin(GameJoinEvent { info: new }),
        transition(old, new)[i]->GameJoin_0.info.stage == new.stage,
{
}

} // verus!
