//! One sitting with the game: from the first observation on, observe,
//! compare, and let the player of music follow.
//!
//! Finding the emulator, waiting between two steps and carrying out the
//! commands are the caller's part.

use crate::data::{Config, Song};
use crate::dolphin::{Poll, ReadDolphinMemory};
use crate::event::{transition, Detect, TryAdvance};
use crate::game::Error;
use crate::melee::{GameInfo, Melee, Status};
use crate::playback::{
    fold_events, fold_view, folded, issued, may_serve_all, App, Command, TickEvent, Waiting,
};
use vstd::prelude::*;

verus! {

/// Milliseconds to wait between two steps of a sitting.
pub const TICK_MILLIS: u64 = 5;

/// Milliseconds to wait before another sitting is tried, after one has
/// failed or could not begin.
pub const BACKOFF_MILLIS: u64 = 1000;

/// What a sitting holds between two steps: the game, the last observation
/// of it, and the state of the player of music.
pub struct Session<R> {
    pub melee: Melee<R>,
    pub game: GameInfo,
    pub app: App,
}

impl<R: ReadDolphinMemory> Session<R> {
    /// The sitting that begins with a first observation: nothing plays yet.
    pub open spec fn begun(melee: Melee<R>, observed: Result<GameInfo, Error>) -> Result<
        Session<R>,
        Error,
    > {
        match observed {
            Ok(game) => Ok(Session { melee, game, app: App::Waiting(Waiting) }),
            Err(e) => Err(e),
        }
    }

    /// Begins a sitting with a first observation of the game.
    pub fn start(melee: Melee<R>) -> (outcome: Result<Session<R>, Error>)
        ensures
            exists|observed: Result<GameInfo, Error>| #[trigger]
                melee.may_poll_info(observed) && outcome == Session::begun(melee, observed),
            outcome matches Err(e) ==> e == Error::InvalidMemoryRead,
    {
        let observed = <Melee<R> as Poll<GameInfo>>::poll(&melee);
        match observed {
            Ok(game) => Ok(Session { melee, game, app: App::Waiting(Waiting) }),
            Err(e) => Err(e),
        }
    }

    /// The sitting after a step and the commands of the step in their
    /// order, given what the step got from outside: the new observation,
    /// the songs picked at the events, and the status looked up at the
    /// tick.
    ///
    /// The events between the last observation and the new one are applied
    /// in their order, the new observation takes the place of the last one,
    /// and a tick follows. Whatever fails fails the step.
    pub open spec fn stepped(
        self,
        observed: Result<GameInfo, Error>,
        picks: Seq<Option<Song>>,
        status: Result<Status, Error>,
    ) -> Result<(Session<R>, Seq<Command>), Error> {
        match observed {
            Ok(game) => match folded(self.app, transition(self.game, game), picks) {
                Ok((reached, commands)) => match reached.ticked(status) {
                    Ok((app, command)) => Ok(
                        (Session { melee: self.melee, game, app }, commands + issued(command)),
                    ),
                    Err(e) => Err(e),
                },
                Err(e) => Err(e),
            },
            Err(e) => Err(e),
        }
    }

    /// Whether a step may get these from outside. Each is held to what its
    /// source admits as far as the step comes to ask for it: the songs
    /// once the game was observed, the status once the events are applied.
    pub open spec fn may_get(
        self,
        config: &Config,
        observed: Result<GameInfo, Error>,
        picks: Seq<Option<Song>>,
        status: Result<Status, Error>,
    ) -> bool {
        &&& self.melee.may_poll_info(observed)
        &&& observed matches Ok(game) ==> {
            &&& may_serve_all(config, transition(self.game, game), picks)
            &&& folded(self.app, transition(self.game, game), picks) matches Ok((reached, _))
                ==> reached.may_look_up(&self.melee, status)
        }
    }
}

/// What a step handed back, with the commands as a sequence.
pub open spec fn step_view<R>(outcome: Result<(Session<R>, Vec<Command>), Error>) -> Result<
    (Session<R>, Seq<Command>),
    Error,
> {
    match outcome {
        Ok((session, commands)) => Ok((session, commands@)),
        Err(e) => Err(e),
    }
}

/// Takes one step of a sitting: observes the game, applies the events
/// since the last observation, and ticks.
pub fn step<R: ReadDolphinMemory>(session: Session<R>, config: &Config) -> (outcome: Result<
    (Session<R>, Vec<Command>),
    Error,
>)
    ensures
        exists|
            observed: Result<GameInfo, Error>,
            picks: Seq<Option<Song>>,
            status: Result<Status, Error>,
        | #[trigger]
            session.may_get(config, observed, picks, status) && step_view(outcome)
                == session.stepped(observed, picks, status),
        outcome matches Err(e) ==> e == Error::InvalidMemoryRead || e == Error::SongNotFound,
{
    let Session { melee, game, app } = session;
    let observed = <Melee<R> as Poll<GameInfo>>::poll(&melee);
    let new_game = match observed {
        Ok(new_game) => new_game,
        Err(e) => {
            assert(session.may_get(config, observed, Seq::empty(), Ok(Status::Menu)));
            return Err(e);
        },
    };
    let events = game.detect(&new_game);
    let applied = fold_events(app, events, config);
    let ghost picks = choose|picks: Seq<Option<Song>>| #[trigger]
        may_serve_all(config, events@, picks) && fold_view(applied) == folded(app, events@, picks);
    let (reached, mut commands) = match applied {
        Ok(applied) => applied,
        Err(e) => {
            assert(session.may_get(config, observed, picks, Ok(Status::Menu)));
            return Err(e);
        },
    };
    let ghost after_events = reached;
    let ghost issued_before = commands@;
    let ticked = reached.try_advance(TickEvent { melee: &melee });
    let ghost status = choose|status: Result<Status, Error>| #[trigger]
        after_events.may_look_up(&melee, status) && ticked == after_events.ticked(status);
    assert(session.may_get(config, observed, picks, status));
    match ticked {
        Ok((app, command)) => {
            if let Some(command) = command {
                commands.push(command);
            }
            assert(commands@ =~= issued_before + issued(command));
            Ok((Session { melee, game: new_game, app }, commands))
        },
        Err(e) => Err(e),
    }
}

} // verus!
