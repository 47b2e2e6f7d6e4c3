//! The playlists: which songs may accompany which stage.

use crate::melee::StageId;
use rand::seq::SliceRandom;
use std::collections::HashMap;
use vstd::prelude::*;

verus! {

/// Something that can be played.
#[derive(Debug, PartialEq, Eq)]
pub enum Song {
    /// A sound file, by its path.
    Local(String),
}

impl Clone for Song {
    fn clone(&self) -> (song: Song)
        ensures
            song == *self,
    {
        match self {
            Song::Local(path) => Song::Local(path.clone()),
        }
    }
}

/// The playlists, one for each stage that has music. A stage is entered
/// under its byte.
pub struct Config {
    pub playlists: HashMap<u8, Vec<Song>>,
}

impl View for Config {
    type V = Map<StageId, Seq<Song>>;

    /// The playlists as a map from the stages that have one to their songs
    /// in the order of the playlist.
    open spec fn view(&self) -> Map<StageId, Seq<Song>> {
        Map::new(
            |stage: StageId| self.playlists@.contains_key(stage.0),
            |stage: StageId| self.playlists@[stage.0]@,
        )
    }
}

impl Default for Config {
    /// The playlists of someone who has none.
    fn default() -> (config: Config)
        ensures
            config@ == Map::<StageId, Seq<Song>>::empty(),
    {
        let config = Config { playlists: HashMap::new() };
        assert(config@ =~= Map::<StageId, Seq<Song>>::empty());
        config
    }
}

/// `rand::rngs::ThreadRng`, the random number generator of a thread. It is
/// handed from where it is got to where it is used, and never looked into.
#[verifier::external_type_specification]
#[verifier::external_body]
pub struct ExThreadRng(rand::rngs::ThreadRng);

/// `rand::thread_rng` hands out the calling thread's generator. Nothing is
/// claimed of it.
pub assume_specification[ rand::thread_rng ]() -> (rng: rand::rngs::ThreadRng);

/// `rand::seq::SliceRandom::choose` on a slice of songs: nothing from an
/// empty slice, else one of its items. Which one is up to the generator.
#[verifier::external_body]
fn choose_song<'a>(songs: &'a Vec<Song>, rng: &mut rand::rngs::ThreadRng) -> (picked: Option<&'a Song>)
    ensures
        picked is None <==> songs@.len() == 0,
        picked matches Some(song) ==> songs@.contains(*song),
{
    songs.as_slice().choose(rng)
}

impl Config {
    /// The songs entered for a stage, in the order of the playlist; none
    /// where the stage has no playlist.
    pub open spec fn playlist(&self, stage: StageId) -> Seq<Song> {
        if self@.contains_key(stage) {
            self@[stage]
        } else {
            Seq::empty()
        }
    }

    /// Whether `picked` is a possible choice for a stage: a song of its
    /// playlist, and nothing only where the playlist has no song.
    pub open spec fn may_pick(&self, stage: StageId, picked: Option<Song>) -> bool {
        match picked {
            Some(song) => self.playlist(stage).contains(song),
            None => self.playlist(stage).len() == 0,
        }
    }

    /// The playlists to work with, given what was found in storage: those,
    /// or none at all where nothing usable was found.
    pub fn fetch(stored: Option<Config>) -> (config: Config)
        ensures
            stored matches Some(found) ==> config == found,
            stored is None ==> config@ == Map::<StageId, Seq<Song>>::empty(),
    {
        match stored {
            Some(found) => found,
            None => Config::default(),
        }
    }

    /// Picks a song for a stage at random from its playlist.
    pub fn pick_song(&self, stage: StageId) -> (picked: Option<Song>)
        ensures
            self.may_pick(stage, picked),
    {
        broadcast use vstd::std_specs::hash::group_hash_axioms;

        let mut rng = rand::thread_rng();
        match self.playlists.get(&stage.0) {
            Some(songs) => match choose_song(songs, &mut rng) {
                Some(song) => Some(song.clone()),
                None => None,
            },
            None => None,
        }
    }
}

} // verus!
