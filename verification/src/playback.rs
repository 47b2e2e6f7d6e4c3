//! The playback state machine: what the player of music does when the game
//! is joined, left, paused and resumed.
//!
//! The machine does not touch the audio device. Each step hands back the
//! command that its caller is to carry out.

use crate::data::{Config, Song};
use crate::dolphin::{Poll, ReadDolphinMemory};
use crate::event::{
    Advance, Event, GameJoinEvent, GameLeaveEvent, GamePauseEvent, GameResumeEvent, TryAdvance,
};
use crate::game::Error;
use crate::melee::{Melee, Status};
use vstd::prelude::*;

verus! {

/// Share of the output's full scale that music plays at, in percent.
pub const MASTER_VOLUME: u8 = 50;

/// Share of the master volume that a running match gets, in percent.
pub const FULL_MULTIPLIER: u8 = 100;

/// Share of the master volume that a paused match gets, in percent.
pub const PAUSED_MULTIPLIER: u8 = 20;

/// How loud a playback is: a master volume and a multiplier on it, both in
/// percent.
#[derive(Clone, Copy, Debug, PartialEq, Eq, Structural)]
pub struct Volume {
    pub master: u8,
    pub multiplier: u8,
}

impl Volume {
    /// The loudness in ten-thousandths of the output's full scale.
    pub open spec fn level(self) -> nat {
        (self.master * self.multiplier) as nat
    }

    /// Whether both parts are percentages, so that the level does not
    /// exceed the full scale.
    pub open spec fn in_range(self) -> bool {
        self.master <= 100 && self.multiplier <= 100
    }

    /// The same master volume under another multiplier.
    pub open spec fn scaled(self, multiplier: u8) -> Volume {
        Volume { master: self.master, multiplier }
    }

    /// The volume at which a playback starts.
    pub open spec fn initial() -> Volume {
        Volume { master: MASTER_VOLUME, multiplier: FULL_MULTIPLIER }
    }
}

/// The multiplier that goes with a status of the game.
pub open spec fn multiplier_for(status: Status) -> u8 {
    if status == Status::Paused {
        PAUSED_MULTIPLIER
    } else {
        FULL_MULTIPLIER
    }
}

/// What the machine knows of a running playback.
#[derive(Debug, PartialEq, Eq)]
pub struct PlaybackHandle {
    pub song: Song,
    pub volume: Volume,
}

/// What the caller is to do to the audio device.
#[derive(Debug, PartialEq, Eq)]
pub enum Command {
    /// Start playing the song at the volume.
    Play { song: Song, volume: Volume },
    /// Stop the running playback.
    Stop,
    /// Set the running playback to the volume.
    SetVolume(Volume),
}

/// No match is on, and nothing plays.
#[derive(Debug, PartialEq, Eq)]
pub struct Waiting;

/// A match is on, and its song plays.
#[derive(Debug, PartialEq, Eq)]
pub struct Playing(pub PlaybackHandle);

/// The state of the player of music.
#[derive(Debug, PartialEq, Eq)]
pub enum App {
    Waiting(Waiting),
    Playing(Playing),
}

/// The moment between two observations. It carries the game, so that the
/// status can be looked up afresh.
pub struct TickEvent<'a, R> {
    pub melee: &'a Melee<R>,
}

/// The commands that an optional command amounts to.
pub open spec fn issued(command: Option<Command>) -> Seq<Command> {
    match command {
        Some(command) => seq![command],
        None => Seq::empty(),
    }
}

impl Playing {
    /// The playback of a song that was just started.
    pub open spec fn started(song: Song) -> Playing {
        Playing(PlaybackHandle { song, volume: Volume::initial() })
    }

    /// The same playback under another multiplier.
    pub open spec fn retuned(self, multiplier: u8) -> Playing {
        Playing(PlaybackHandle { song: self.0.song, volume: self.0.volume.scaled(multiplier) })
    }

    /// Sets the multiplier of the playback, and says so to the device.
    fn scale(self, multiplier: u8) -> (step: (Playing, Command))
        ensures
            step.0 == self.retuned(multiplier),
            step.1 == Command::SetVolume(self.0.volume.scaled(multiplier)),
    {
        let volume = Volume { master: self.0.volume.master, multiplier };
        (Playing(PlaybackHandle { song: self.0.song, volume }), Command::SetVolume(volume))
    }

    /// Brings the volume in line with a status of the game: reduced while
    /// the match is paused, full otherwise.
    pub fn retune(self, status: Status) -> (step: (Playing, Command))
        ensures
            step.0 == self.retuned(multiplier_for(status)),
            step.1 == Command::SetVolume(self.0.volume.scaled(multiplier_for(status))),
    {
        match status {
            Status::Paused => self.scale(PAUSED_MULTIPLIER),
            _ => self.scale(FULL_MULTIPLIER),
        }
    }
}

impl Advance<GameLeaveEvent> for Playing {
    type Output = (Waiting, Command);

    /// The match is over: the playback is to stop.
    fn advance(self, tag: GameLeaveEvent) -> (step: (Waiting, Command))
        ensures
            step == (Waiting, Command::Stop),
    {
        (Waiting, Command::Stop)
    }
}

impl Advance<GamePauseEvent> for Playing {
    type Output = (Playing, Command);

    /// The match is paused: the playback goes on at the reduced volume.
    fn advance(self, tag: GamePauseEvent) -> (step: (Playing, Command))
        ensures
            step.0 == self.retuned(PAUSED_MULTIPLIER),
            step.1 == Command::SetVolume(self.0.volume.scaled(PAUSED_MULTIPLIER)),
    {
        self.scale(PAUSED_MULTIPLIER)
    }
}

impl Advance<GameResumeEvent> for Playing {
    type Output = (Playing, Command);

    /// The match goes on: the playback is back at the full volume.
    fn advance(self, tag: GameResumeEvent) -> (step: (Playing, Command))
        ensures
            step.0 == self.retuned(FULL_MULTIPLIER),
            step.1 == Command::SetVolume(self.0.volume.scaled(FULL_MULTIPLIER)),
    {
        self.scale(FULL_MULTIPLIER)
    }
}

impl Waiting {
    /// What a join leads to, given the song that was picked for its stage.
    pub open spec fn joined(picked: Option<Song>) -> Result<(Playing, Command), Error> {
        match picked {
            Some(song) => Ok(
                (Playing::started(song), Command::Play { song, volume: Volume::initial() }),
            ),
            None => Err(Error::SongNotFound),
        }
    }

    /// Starts the playback of the song that was picked. Without a song
    /// there is nothing to start.
    pub fn start(self, picked: Option<Song>) -> (outcome: Result<(Playing, Command), Error>)
        ensures
            outcome == Waiting::joined(picked),
    {
        match picked {
            Some(song) => {
                let volume = Volume { master: MASTER_VOLUME, multiplier: FULL_MULTIPLIER };
                let playing = Playing(PlaybackHandle { song: song.clone(), volume });
                Ok((playing, Command::Play { song, volume }))
            },
            None => Err(Error::SongNotFound),
        }
    }
}

impl<'a> TryAdvance<(GameJoinEvent, &'a Config)> for Waiting {
    type Error = Error;

    type Output = (Playing, Command);

    /// A match began: picks a song for its stage from the playlists and
    /// starts it.
    fn try_advance(self, tag: (GameJoinEvent, &'a Config)) -> (outcome: Result<
        (Playing, Command),
        Error,
    >)
        ensures
            exists|picked: Option<Song>| #[trigger]
                tag.1.may_pick(tag.0.info.stage, picked) && outcome == Waiting::joined(picked),
    {
        let picked = tag.1.pick_song(tag.0.info.stage);
        self.start(picked)
    }
}

impl Playing {
    /// What a tick leads to, given the status that was looked up: the
    /// volume that goes with the status, or the failure of the lookup.
    pub open spec fn tuned_by(self, status: Result<Status, Error>) -> Result<
        (Playing, Command),
        Error,
    > {
        match status {
            Ok(status) => Ok(
                (
                    self.retuned(multiplier_for(status)),
                    Command::SetVolume(self.0.volume.scaled(multiplier_for(status))),
                ),
            ),
            Err(e) => Err(e),
        }
    }
}

impl<'a, R: ReadDolphinMemory> TryAdvance<TickEvent<'a, R>> for Playing {
    type Error = Error;

    type Output = (Playing, Command);

    /// Looks up the status of the game and brings the volume in line with
    /// it, whether or not a pause or a resume was seen.
    fn try_advance(self, tag: TickEvent<'a, R>) -> (outcome: Result<(Playing, Command), Error>)
        ensures
            exists|status: Result<Status, Error>| #[trigger]
                tag.melee.may_poll_status(status) && outcome == self.tuned_by(status),
    {
        let status = <Melee<R> as Poll<Status>>::poll(tag.melee);
        match status {
            Ok(status) => Ok(self.retune(status)),
            Err(e) => Err(e),
        }
    }
}

/// Whether `picked` may be the song that the playlists give for an event:
/// for a join, a possible choice for its stage. Other events ask for no
/// song.
pub open spec fn may_serve(config: &Config, event: Event, picked: Option<Song>) -> bool {
    event matches Event::GameJoin(join) ==> config.may_pick(join.info.stage, picked)
}

/// One song that the playlists may give for an event: the first of the
/// stage's playlist.
spec fn first_pick(config: &Config, event: Event) -> Option<Song> {
    match event {
        Event::GameJoin(join) => if config.playlist(join.info.stage).len() == 0 {
            None
        } else {
            Some(config.playlist(join.info.stage)[0])
        },
        _ => None,
    }
}

/// The first song of a stage's playlist is a possible choice for a join.
proof fn lemma_first_pick_serves(config: &Config, event: Event)
    ensures
        may_serve(config, event, first_pick(config, event)),
{
    if let Event::GameJoin(join) = event {
        let playlist = config.playlist(join.info.stage);
        if playlist.len() > 0 {
            assert(playlist.contains(playlist[0]));
        }
    }
}

impl App {
    /// The state after an event and the command that goes with the step,
    /// given the song that was picked in case the event is a join.
    ///
    /// A join starts a playback where none runs; a leave stops the running
    /// one; a pause and a resume set its volume. Every other pair of state
    /// and event changes nothing.
    pub open spec fn advanced(self, event: Event, picked: Option<Song>) -> Result<
        (App, Option<Command>),
        Error,
    > {
        match (self, event) {
            (App::Waiting(_), Event::GameJoin(_)) => match Waiting::joined(picked) {
                Ok((playing, command)) => Ok((App::Playing(playing), Some(command))),
                Err(e) => Err(e),
            },
            (App::Playing(_), Event::GameLeave(_)) => Ok(
                (App::Waiting(Waiting), Some(Command::Stop)),
            ),
            (App::Playing(playing), Event::GamePause(_)) => Ok(
                (
                    App::Playing(playing.retuned(PAUSED_MULTIPLIER)),
                    Some(Command::SetVolume(playing.0.volume.scaled(PAUSED_MULTIPLIER))),
                ),
            ),
            (App::Playing(playing), Event::GameResume(_)) => Ok(
                (
                    App::Playing(playing.retuned(FULL_MULTIPLIER)),
                    Some(Command::SetVolume(playing.0.volume.scaled(FULL_MULTIPLIER))),
                ),
            ),
            _ => Ok((self, None)),
        }
    }

    /// The state after a tick and the command that goes with it, given the
    /// status that was looked up. Only a running playback is touched, and
    /// it stays a running playback.
    pub open spec fn ticked(self, status: Result<Status, Error>) -> Result<
        (App, Option<Command>),
        Error,
    > {
        match self {
            App::Playing(playing) => match playing.tuned_by(status) {
                Ok((playing, command)) => Ok((App::Playing(playing), Some(command))),
                Err(e) => Err(e),
            },
            App::Waiting(_) => Ok((self, None)),
        }
    }

    /// Whether `status` may be what a tick in this state looks up. Without
    /// a running playback nothing is looked up.
    pub open spec fn may_look_up<R: ReadDolphinMemory>(
        self,
        melee: &Melee<R>,
        status: Result<Status, Error>,
    ) -> bool {
        self is Playing ==> melee.may_poll_status(status)
    }
}

impl<'a> TryAdvance<(Event, &'a Config)> for App {
    type Error = Error;

    type Output = (App, Option<Command>);

    /// Applies an event. The playlists are asked only where a join meets
    /// the waiting state.
    fn try_advance(self, tag: (Event, &'a Config)) -> (outcome: Result<
        (App, Option<Command>),
        Error,
    >)
        ensures
            exists|picked: Option<Song>| #[trigger]
                may_serve(tag.1, tag.0, picked) && outcome == self.advanced(tag.0, picked),
    {
        let (event, config) = tag;
        match (self, event) {
            (App::Waiting(state), Event::GameJoin(join)) => {
                let joined = state.try_advance((join, config));
                proof {
                    let picked = choose|picked: Option<Song>| #[trigger]
                        config.may_pick(join.info.stage, picked) && joined == Waiting::joined(
                            picked,
                        );
                    assert(may_serve(config, event, picked));
                }
                match joined {
                    Ok((playing, command)) => Ok((App::Playing(playing), Some(command))),
                    Err(e) => Err(e),
                }
            },
            (App::Playing(state), Event::GameLeave(leave)) => {
                let (waiting, command) = state.advance(leave);
                proof {
                    lemma_first_pick_serves(config, event);
                }
                Ok((App::Waiting(waiting), Some(command)))
            },
            (App::Playing(state), Event::GamePause(pause)) => {
                let (playing, command) = state.advance(pause);
                proof {
                    lemma_first_pick_serves(config, event);
                }
                Ok((App::Playing(playing), Some(command)))
            },
            (App::Playing(state), Event::GameResume(resume)) => {
                let (playing, command) = state.advance(resume);
                proof {
                    lemma_first_pick_serves(config, event);
                }
                Ok((App::Playing(playing), Some(command)))
            },
            (app, _) => {
                proof {
                    lemma_first_pick_serves(config, event);
                }
                Ok((app, None))
            },
        }
    }
}

impl<'a, R: ReadDolphinMemory> TryAdvance<TickEvent<'a, R>> for App {
    type Error = Error;

    type Output = (App, Option<Command>);

    /// Applies a tick: a running playback has its volume brought in line
    /// with the status of the game, and nothing else changes.
    fn try_advance(self, tag: TickEvent<'a, R>) -> (outcome: Result<(App, Option<Command>), Error>)
        ensures
            exists|status: Result<Status, Error>| #[trigger]
                self.may_look_up(tag.melee, status) && outcome == self.ticked(status),
    {
        match self {
            App::Playing(state) => {
                let tuned = state.try_advance(tag);
                proof {
                    let status = choose|status: Result<Status, Error>| #[trigger]
                        tag.melee.may_poll_status(status) && tuned == state.tuned_by(status);
                    assert(self.may_look_up(tag.melee, status));
                }
                match tuned {
                    Ok((playing, command)) => Ok((App::Playing(playing), Some(command))),
                    Err(e) => Err(e),
                }
            },
            app => {
                assert(app.may_look_up(tag.melee, Ok(Status::Menu)));
                Ok((app, None))
            },
        }
    }
}

/// Whether `picks` may be the songs that the playlists give for a run of
/// events, one for each event.
pub open spec fn may_serve_all(config: &Config, events: Seq<Event>, picks: Seq<Option<Song>>) -> bool {
    &&& picks.len() == events.len()
    &&& forall|i: int| 0 <= i < events.len() ==> #[trigger] may_serve(config, events[i], picks[i])
}

/// The state after a run of events, applied in their order from a first
/// state, and the commands of the steps in the order of the steps, given
/// the song that was picked at each event. The first step that fails fails
/// the whole; the events after it are not applied.
pub open spec fn folded(app: App, events: Seq<Event>, picks: Seq<Option<Song>>) -> Result<
    (App, Seq<Command>),
    Error,
>
    decreases events.len(),
{
    if events.len() == 0 {
        Ok((app, Seq::empty()))
    } else {
        match folded(app, events.drop_last(), picks.drop_last()) {
            Ok((reached, commands)) => match reached.advanced(events.last(), picks.last()) {
                Ok((next, command)) => Ok((next, commands + issued(command))),
                Err(e) => Err(e),
            },
            Err(e) => Err(e),
        }
    }
}

/// What a fold handed back, with the commands as a sequence.
pub open spec fn fold_view(outcome: Result<(App, Vec<Command>), Error>) -> Result<
    (App, Seq<Command>),
    Error,
> {
    match outcome {
        Ok((app, commands)) => Ok((app, commands@)),
        Err(e) => Err(e),
    }
}

/// A run of events that has failed after `k` events fails as a whole, in
/// the same way.
proof fn lemma_failure_is_final(app: App, events: Seq<Event>, picks: Seq<Option<Song>>, k: int)
    requires
        0 <= k <= events.len(),
        events.len() == picks.len(),
        folded(app, events.take(k), picks.take(k)) is Err,
    ensures
        folded(app, events, picks) == folded(app, events.take(k), picks.take(k)),
    decreases events.len() - k,
{
    if k == events.len() {
        assert(events.take(k) =~= events);
        assert(picks.take(k) =~= picks);
    } else {
        assert(events.take(k + 1).drop_last() =~= events.take(k));
        assert(picks.take(k + 1).drop_last() =~= picks.take(k));
        lemma_failure_is_final(app, events, picks, k + 1);
    }
}

/// A run of events fails in one way only: for want of a song.
pub proof fn lemma_fold_fails_for_want_of_a_song(
    app: App,
    events: Seq<Event>,
    picks: Seq<Option<Song>>,
)
    ensures
        folded(app, events, picks) matches Err(e) ==> e == Error::SongNotFound,
    decreases events.len(),
{
    if events.len() > 0 {
        lemma_fold_fails_for_want_of_a_song(app, events.drop_last(), picks.drop_last());
    }
}

/// Applies a run of events in their order, and collects the commands of
/// the steps. Stops at the first step that fails.
pub fn fold_events(app: App, events: Vec<Event>, config: &Config) -> (outcome: Result<
    (App, Vec<Command>),
    Error,
>)
    ensures
        exists|picks: Seq<Option<Song>>| #[trigger]
            may_serve_all(config, events@, picks) && fold_view(outcome) == folded(
                app,
                events@,
                picks,
            ),
        outcome matches Err(e) ==> e == Error::SongNotFound,
{
    let ghost first = app;
    let mut state = app;
    let mut commands: Vec<Command> = Vec::new();
    let ghost mut picks: Seq<Option<Song>> = Seq::empty();
    let mut i: usize = 0;
    while i < events.len()
        invariant
            i <= events.len(),
            first == app,
            may_serve_all(config, events@.take(i as int), picks),
            folded(first, events@.take(i as int), picks) == Ok::<(App, Seq<Command>), Error>(
                (state, commands@),
            ),
        decreases events.len() - i,
    {
        let event = events[i];
        let ghost reached = state;
        let ghost issued_before = commands@;
        let step = state.try_advance((event, config));
        let ghost picked = choose|picked: Option<Song>| #[trigger]
            may_serve(config, event, picked) && step == reached.advanced(event, picked);
        proof {
            assert(events@.take(i + 1).drop_last() =~= events@.take(i as int));
            assert(picks.push(picked).drop_last() =~= picks);
        }
        match step {
            Ok((next, command)) => {
                state = next;
                if let Some(command) = command {
                    commands.push(command);
                }
                proof {
                    picks = picks.push(picked);
                    assert(commands@ =~= issued_before + issued(command));
                }
            },
            Err(e) => {
                proof {
                    let done = picks.push(picked);
                    let all = Seq::new(
                        events@.len(),
                        |j: int|
                            if j <= i {
                                done[j]
                            } else {
                                first_pick(config, events@[j])
                            },
                    );
                    assert(all.take(i + 1) =~= done);
                    assert(events@.take(i + 1).last() == event);
                    assert(done.last() == picked);
                    assert forall|j: int| 0 <= j < events@.len() implies #[trigger] may_serve(
                        config,
                        events@[j],
                        all[j],
                    ) by {
                        if j < i {
                            assert(may_serve(config, events@.take(i as int)[j], picks[j]));
                        } else if j > i {
                            lemma_first_pick_serves(config, events@[j]);
                        }
                    }
                    lemma_failure_is_final(first, events@, all, i + 1);
                    assert(may_serve_all(config, events@, all));
                }
                return Err(e);
            },
        }
        i += 1;
    }
    proof {
        assert(events@.take(i as int) =~= events@);
    }
    Ok((state, commands))
}

/// A leave that meets a running playback ends it: the machine waits, and
/// the one command of the step is to stop.
pub proof fn lemma_leave_stops_once(app: App, picked: Option<Song>)
    requires
        app is Playing,
    ensures
        app.advanced(Event::GameLeave(GameLeaveEvent), picked) == Ok::<
            (App, Option<Command>),
            Error,
        >((App::Waiting(Waiting), Some(Command::Stop))),
        folded(app, seq![Event::GameLeave(GameLeaveEvent)], seq![picked]) == Ok::<
            (App, Seq<Command>),
            Error,
        >((App::Waiting(Waiting), seq![Command::Stop])),
{
    let events = seq![Event::GameLeave(GameLeaveEvent)];
    let picks = seq![picked];
    assert(events.drop_last() =~= Seq::<Event>::empty());
    assert(folded(app, events.drop_last(), picks.drop_last()) == Ok::<(App, Seq<Command>), Error>(
        (app, Seq::empty()),
    ));
    assert(Seq::<Command>::empty() + issued(Some(Command::Stop)) =~= seq![Command::Stop]);
}

/// A pause sets a running playback to the paused share of its master
/// volume: its level is twenty percent of the level at the full share.
pub proof fn lemma_pause_reduces(playing: Playing, picked: Option<Song>)
    ensures
        App::Playing(playing).advanced(Event::GamePause(GamePauseEvent), picked) == Ok::<
            (App, Option<Command>),
            Error,
        >(
            (
                App::Playing(playing.retuned(PAUSED_MULTIPLIER)),
                Some(Command::SetVolume(playing.0.volume.scaled(PAUSED_MULTIPLIER))),
            ),
        ),
        playing.retuned(PAUSED_MULTIPLIER).0.volume.level() * 100 == 20 * playing.retuned(
            FULL_MULTIPLIER,
        ).0.volume.level(),
{
}

/// A pause and then a resume bring a playback at the full share back to
/// where it was: the same song at the same volume.
pub proof fn lemma_pause_resume_restores(playing: Playing, picked: Option<Song>)
    requires
        playing.0.volume.multiplier == FULL_MULTIPLIER,
    ensures
        App::Playing(playing).advanced(Event::GamePause(GamePauseEvent), picked) matches Ok(
            (paused, _),
        ) && paused.advanced(Event::GameResume(GameResumeEvent), picked) matches Ok((resumed, _))
            && resumed == App::Playing(playing),
        playing.retuned(PAUSED_MULTIPLIER).retuned(FULL_MULTIPLIER) == playing,
{
}

/// A resume after a resume changes nothing more: resuming is idempotent,
/// and so is pausing.
pub proof fn lemma_retuning_is_idempotent(playing: Playing, multiplier: u8)
    ensures
        playing.retuned(multiplier).retuned(multiplier) == playing.retuned(multiplier),
{
}

/// A step fails in one way only: a join meets the waiting state and the
/// playlists give no song for its stage. The error is that no song was
/// found, and the state that the step was to leave is the waiting state.
pub proof fn lemma_only_a_join_without_song_fails(app: App, event: Event, picked: Option<Song>)
    ensures
        app.advanced(event, picked) is Err <==> app is Waiting && event is GameJoin
            && picked is None,
        app.advanced(event, picked) matches Err(e) ==> e == Error::SongNotFound,
{
}

/// A join for a stage without songs fails whatever is picked, since
/// nothing can be picked.
pub proof fn lemma_join_without_playlist_fails(
    config: &Config,
    join: GameJoinEvent,
    picked: Option<Song>,
)
    requires
        config.playlist(join.info.stage).len() == 0,
        may_serve(config, Event::GameJoin(join), picked),
    ensures
        picked is None,
        App::Waiting(Waiting).advanced(Event::GameJoin(join), picked) == Err::<
            (App, Option<Command>),
            Error,
        >(Error::SongNotFound),
{
    if let Some(song) = picked {
        assert(config.playlist(join.info.stage).contains(song));
    }
}

/// A join for a stage with songs starts one of them: the machine plays
/// it, and the one command of the step is to play it.
pub proof fn lemma_join_with_playlist_plays(
    config: &Config,
    join: GameJoinEvent,
    picked: Option<Song>,
)
    requires
        config.playlist(join.info.stage).len() > 0,
        may_serve(config, Event::GameJoin(join), picked),
    ensures
        picked matches Some(song) && config.playlist(join.info.stage).contains(song)
            && App::Waiting(Waiting).advanced(Event::GameJoin(join), picked) == Ok::<
            (App, Option<Command>),
            Error,
        >(
            (
                App::Playing(Playing::started(song)),
                Some(Command::Play { song, volume: Volume::initial() }),
            ),
        ),
{
}

/// Without events nothing changes and nothing is commanded.
pub proof fn lemma_no_event_no_change(app: App, picks: Seq<Option<Song>>)
    ensures
        folded(app, Seq::empty(), picks) == Ok::<(App, Seq<Command>), Error>(
            (app, Seq::empty()),
        ),
{
}

/// No step takes a volume out of range: a playback that is in range stays
/// in range under every event and every tick.
pub proof fn lemma_volume_stays_in_range(
    playing: Playing,
    event: Event,
    picked: Option<Song>,
    status: Result<Status, Error>,
)
    requires
        playing.0.volume.in_range(),
    ensures
        App::Playing(playing).advanced(event, picked) matches Ok((App::Playing(next), _))
            ==> next.0.volume.in_range(),
        App::Playing(playing).ticked(status) matches Ok((App::Playing(next), _))
            ==> next.0.volume.in_range(),
        Volume::initial().in_range(),
{
}

} // verus!
