//! Music for a fighting game that runs in an emulator: watches the game
//! through the emulator's memory and plays a song of the stage while a
//! match is on.
//!
//! The crate is layered from the leaves up:
//!
//! * [`dolphin`] translates console addresses, finds the emulator among
//!   the processes of the machine, and reads its memory;
//! * [`melee`] decodes an observation of the game from three fixed reads;
//! * [`event`] compares two observations and names what happened between
//!   them;
//! * [`data`] holds the playlists and picks a song for a stage;
//! * [`playback`] is the state machine that the events drive, and that
//!   commands the audio device;
//! * [`session`] ties these into the step that is taken again and again;
//! * [`game`] names the failures, and holds a coarser look at the game.
//!
//! The machine, the emulator's memory and the audio device are outside.
//! The first two are reached through the traits of [`dolphin`], which say
//! nothing of what comes back; the contracts say what is made of whatever
//! does. The audio device is not reached at all: the state machine hands
//! out the commands for it.

pub mod data;
pub mod dolphin;
pub mod event;
pub mod game;
pub mod melee;
pub mod playback;
pub mod session;
