//! The game as it is seen through the emulator's memory: which stage is
//! loaded and whether a match is running.

use crate::dolphin::{
    located, may_locate, may_read, read_view, DolphinHandle, LogicalAddress, Poll, ProcessMemory,
    Processes, ReadDolphinMemory,
};
use crate::game::Error;
use vstd::prelude::*;

verus! {

/// Where the game keeps the byte that names the loaded stage.
pub const STAGE_ADDRESS: usize = 0x8045_AC67;

/// Where the game keeps the byte that tells a paused or ended match.
pub const PAUSE_ADDRESS: usize = 0x8047_9D68;

/// Where the game keeps the byte that is zero outside a match.
pub const INGAME_ADDRESS: usize = 0x8047_9D88;

/// Value of the pause byte once the match has ended.
pub const GAME_ENDED: u8 = 0x10;

/// Value of the pause byte while the match is paused.
pub const GAME_PAUSED: u8 = 0x02;

/// The byte by which the game names a stage.
#[derive(Clone, Copy, Debug, PartialEq, Eq, Hash, Structural)]
pub struct StageId(pub u8);

/// Where the player is: in a menu, in a running match, or in a paused one.
#[derive(Clone, Copy, Debug, PartialEq, Eq, Structural)]
pub enum Status {
    Menu,
    Playing,
    Paused,
}

/// One observation of the game.
#[derive(Clone, Copy, Debug, PartialEq, Eq, Structural)]
pub struct GameInfo {
    pub stage: StageId,
    pub status: Status,
}

/// The byte that a read of one byte yields: the first byte read. A failed
/// read and a read without bytes both count as an invalid read.
pub open spec fn leading_byte(read: Result<Seq<u8>, Error>) -> Result<u8, Error> {
    match read {
        Ok(bytes) => if bytes.len() > 0 {
            Ok(bytes[0])
        } else {
            Err(Error::InvalidMemoryRead)
        },
        Err(_) => Err(Error::InvalidMemoryRead),
    }
}

/// The status that the two indicator bytes stand for. The rules apply
/// from the top: an ended match is a menu even while the pause byte of the
/// match that ends is still around.
pub open spec fn status_of(ingame_byte: u8, pause_byte: u8) -> Status {
    if pause_byte == GAME_ENDED {
        Status::Menu
    } else if pause_byte == GAME_PAUSED {
        Status::Paused
    } else if ingame_byte == 0 {
        Status::Menu
    } else {
        Status::Playing
    }
}

/// The stage that a read of the stage byte stands for.
pub open spec fn stage_read(read: Result<Seq<u8>, Error>) -> Result<StageId, Error> {
    match leading_byte(read) {
        Ok(byte) => Ok(StageId(byte)),
        Err(e) => Err(e),
    }
}

/// The status that the reads of the pause byte and of the in-game byte
/// stand for. Either failed read fails the whole.
pub open spec fn status_read(pause: Result<Seq<u8>, Error>, ingame: Result<Seq<u8>, Error>) -> Result<
    Status,
    Error,
> {
    match (leading_byte(pause), leading_byte(ingame)) {
        (Ok(pause_byte), Ok(ingame_byte)) => Ok(status_of(ingame_byte, pause_byte)),
        _ => Err(Error::InvalidMemoryRead),
    }
}

/// The observation that a stage and a status, each read or failed, make
/// up. There is no observation with a part missing.
pub open spec fn info_read(stage: Result<StageId, Error>, status: Result<Status, Error>) -> Result<
    GameInfo,
    Error,
> {
    match (stage, status) {
        (Ok(stage), Ok(status)) => Ok(GameInfo { stage, status }),
        _ => Err(Error::InvalidMemoryRead),
    }
}

/// Takes the byte out of a read of one byte.
pub fn first_byte(read: Result<Vec<u8>, Error>) -> (byte: Result<u8, Error>)
    ensures
        byte == leading_byte(read_view(read)),
{
    match read {
        Ok(bytes) => if bytes.len() > 0 {
            Ok(bytes[0])
        } else {
            Err(Error::InvalidMemoryRead)
        },
        Err(_) => Err(Error::InvalidMemoryRead),
    }
}

impl Status {
    /// Decodes the status from the in-game byte and the pause byte.
    pub fn decode(ingame_byte: u8, pause_byte: u8) -> (status: Status)
        ensures
            status == status_of(ingame_byte, pause_byte),
    {
        match (ingame_byte, pause_byte) {
            (_, 0x10) => Status::Menu,
            (_, 0x02) => Status::Paused,
            (0, _) => Status::Menu,
            _ => Status::Playing,
        }
    }
}

/// The game inside the emulator, seen through a reader of its memory.
pub struct Melee<R>(pub R);

impl<R: ReadDolphinMemory> Melee<R> {
    /// Whether an observation of the stage may end in `outcome`: the
    /// reader admits a read of the stage byte that stands for it.
    pub open spec fn may_poll_stage(&self, outcome: Result<StageId, Error>) -> bool {
        exists|read: Result<Vec<u8>, Error>| #[trigger]
            may_read(&self.0, LogicalAddress(STAGE_ADDRESS), 1, read) && outcome == stage_read(
                read_view(read),
            )
    }

    /// Whether an observation of the status may get these two reads. The
    /// pause byte is read first; the in-game byte is read only where that
    /// read gave a byte.
    pub open spec fn may_read_status(
        &self,
        pause: Result<Vec<u8>, Error>,
        ingame: Result<Vec<u8>, Error>,
    ) -> bool {
        &&& may_read(&self.0, LogicalAddress(PAUSE_ADDRESS), 1, pause)
        &&& leading_byte(read_view(pause)) is Ok ==> may_read(
            &self.0,
            LogicalAddress(INGAME_ADDRESS),
            1,
            ingame,
        )
    }

    /// Whether an observation of the status may end in `outcome`: the
    /// reader admits reads of the two indicator bytes that stand for it.
    pub open spec fn may_poll_status(&self, outcome: Result<Status, Error>) -> bool {
        exists|pause: Result<Vec<u8>, Error>, ingame: Result<Vec<u8>, Error>| #[trigger]
            self.may_read_status(pause, ingame) && outcome == status_read(
                read_view(pause),
                read_view(ingame),
            )
    }

    /// Whether an observation of the game may come by these two parts.
    /// The stage is observed first; the status is observed only where
    /// there is a stage.
    pub open spec fn may_observe(
        &self,
        stage: Result<StageId, Error>,
        status: Result<Status, Error>,
    ) -> bool {
        &&& self.may_poll_stage(stage)
        &&& stage is Ok ==> self.may_poll_status(status)
    }

    /// Whether an observation of the game may end in `outcome`.
    pub open spec fn may_poll_info(&self, outcome: Result<GameInfo, Error>) -> bool {
        exists|stage: Result<StageId, Error>, status: Result<Status, Error>| #[trigger]
            self.may_observe(stage, status) && outcome == info_read(stage, status)
    }
}

/// The game seen through a handle that was located, or the failure to
/// locate one.
pub open spec fn connected<M>(located: Result<DolphinHandle<M>, Error>) -> Result<
    Melee<DolphinHandle<M>>,
    Error,
> {
    match located {
        Ok(handle) => Ok(Melee(handle)),
        Err(e) => Err(e),
    }
}

impl<M: ProcessMemory> Melee<DolphinHandle<M>> {
    /// Connects to the game: finds the emulator among the processes of the
    /// machine and opens its memory.
    pub fn connect<S: Processes<Memory = M>>(system: &S) -> (outcome: Result<
        Melee<DolphinHandle<M>>,
        Error,
    >)
        ensures
            exists|listed: Vec<(S::Pid, String)>, opened: Option<M>| #[trigger]
                may_locate(system, listed, opened) && outcome == connected(
                    located(listed@, opened),
                ),
    {
        match DolphinHandle::locate(system) {
            Ok(handle) => Ok(Melee(handle)),
            Err(e) => Err(e),
        }
    }
}

impl<R: ReadDolphinMemory> ReadDolphinMemory for Melee<R> {
    /// Reads through the reader that the game was given.
    fn memread(&self, address: LogicalAddress, size: usize) -> (read: Result<Vec<u8>, Error>)
        ensures
            may_read(&self.0, address, size, read),
    {
        self.0.memread(address, size)
    }
}

impl<R: ReadDolphinMemory> Poll<StageId> for Melee<R> {
    /// Observes the loaded stage.
    fn poll(&self) -> (outcome: Result<StageId, Error>)
        ensures
            self.may_poll_stage(outcome),
            outcome matches Err(e) ==> e == Error::InvalidMemoryRead,
    {
        let read = self.memread(LogicalAddress(STAGE_ADDRESS), 1);
        match first_byte(read) {
            Ok(byte) => Ok(StageId(byte)),
            Err(e) => Err(e),
        }
    }
}

impl<R: ReadDolphinMemory> Poll<Status> for Melee<R> {
    /// Observes the status of the game.
    fn poll(&self) -> (outcome: Result<Status, Error>)
        ensures
            self.may_poll_status(outcome),
            outcome matches Err(e) ==> e == Error::InvalidMemoryRead,
    {
        let pause = self.memread(LogicalAddress(PAUSE_ADDRESS), 1);
        let ghost pause_read = pause;
        let pause_byte = match first_byte(pause) {
            Ok(byte) => byte,
            Err(e) => {
                assert(self.may_read_status(pause_read, pause_read));
                return Err(e);
            },
        };
        let ingame = self.memread(LogicalAddress(INGAME_ADDRESS), 1);
        assert(self.may_read_status(pause_read, ingame));
        match first_byte(ingame) {
            Ok(ingame_byte) => Ok(Status::decode(ingame_byte, pause_byte)),
            Err(e) => Err(e),
        }
    }
}

impl<R: ReadDolphinMemory> Poll<GameInfo> for Melee<R> {
    /// Observes the game: its stage, then its status.
    fn poll(&self) -> (outcome: Result<GameInfo, Error>)
        ensures
            self.may_poll_info(outcome),
            outcome matches Err(e) ==> e == Error::InvalidMemoryRead,
    {
        let stage_outcome = <Self as Poll<StageId>>::poll(self);
        let stage = match stage_outcome {
            Ok(stage) => stage,
            Err(e) => {
                assert(self.may_observe(stage_outcome, Err(e)));
                return Err(e);
            },
        };
        let status_outcome = <Self as Poll<Status>>::poll(self);
        assert(self.may_observe(stage_outcome, status_outcome));
        match status_outcome {
            Ok(status) => Ok(GameInfo { stage, status }),
            Err(e) => Err(e),
        }
    }
}

} // verus!
