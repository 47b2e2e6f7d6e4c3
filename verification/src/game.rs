//! What can go wrong while the game is being watched, and a coarse look
//! at the game: its stage, its match clock, and whether a menu is up.

use crate::dolphin::{
    find_dolphin_pid, first_dolphin_at, is_dolphin, lemma_first_dolphin_is_unique, may_list,
    may_open, may_read, read_view, DolphinHandle, LogicalAddress, Processes, ReadDolphinMemory,
};
use byteorder::{BigEndian, ReadBytesExt};
use vstd::prelude::*;

verus! {

/// Where the game keeps the byte that names the stage of the match.
pub const STAGE_ADDRESS: usize = 0x8043_208B;

/// Where the game keeps the match clock: four bytes, the most significant
/// first, counting seconds.
pub const TIME_ADDRESS: usize = 0x8046_B6C8;

/// Where the first item of the menu lies while a menu is up.
pub const MENU_ADDRESS: usize = 0x8136_F674;

/// First byte of the first menu item while a menu is up.
pub const MENU_MARK: u8 = 0x81;

/// The failures that the watcher reports. None of them ends the program:
/// each is answered by trying again at a coarser or finer grain.
#[derive(Clone, Copy, Debug, PartialEq, Eq, Structural)]
pub enum Error {
    /// The emulator runs, but its memory could not be opened.
    DolphinAccessDenied,
    /// No running process bears the emulator's name.
    DolphinNotFound,
    /// A read of the emulator's memory failed or came back short.
    InvalidMemoryRead,
    /// The stage that was joined has no song to play.
    SongNotFound,
}

/// Whether a menu is up or a match is on.
#[derive(Clone, Copy, Debug, PartialEq, Eq, Structural)]
pub enum Status {
    InMenu,
    InGame,
}

/// The byte by which the game names a stage.
#[derive(Clone, Copy, Debug, PartialEq, Eq, Hash, Structural)]
pub struct StageId(pub u8);

/// One coarse observation of the game. `time` is the match clock in
/// seconds.
#[derive(Clone, Copy, Debug, PartialEq, Eq, Structural)]
pub struct GameInfo {
    pub time: u64,
    pub stage: StageId,
    pub status: Status,
}

/// The game as it was found.
#[derive(Debug, PartialEq, Eq)]
pub struct Melee {
    pub game_info: GameInfo,
}

/// The number that four bytes spell, the most significant first.
pub open spec fn be_u32(bytes: Seq<u8>) -> int {
    bytes[0] * 0x100_0000 + bytes[1] * 0x1_0000 + bytes[2] * 0x100 + bytes[3]
}

/// `byteorder::ReadBytesExt::read_u32` in `BigEndian` order on a slice of
/// bytes: the number that the first four bytes spell, and no number where
/// there are fewer than four.
#[verifier::external_body]
fn read_u32_be(bytes: &Vec<u8>) -> (number: Option<u32>)
    ensures
        number is None <==> bytes@.len() < 4,
        number matches Some(n) ==> n == be_u32(bytes@),
{
    bytes.as_slice().read_u32::<BigEndian>().ok()
}

/// The stage that a read of the stage byte stands for: its first byte.
pub open spec fn stage_read(read: Result<Seq<u8>, Error>) -> Result<StageId, Error> {
    match read {
        Ok(bytes) => if bytes.len() > 0 {
            Ok(StageId(bytes[0]))
        } else {
            Err(Error::InvalidMemoryRead)
        },
        Err(_) => Err(Error::InvalidMemoryRead),
    }
}

/// The seconds that a read of the match clock stands for.
pub open spec fn time_read(read: Result<Seq<u8>, Error>) -> Result<u64, Error> {
    match read {
        Ok(bytes) => if bytes.len() >= 4 {
            Ok(be_u32(bytes) as u64)
        } else {
            Err(Error::InvalidMemoryRead)
        },
        Err(_) => Err(Error::InvalidMemoryRead),
    }
}

/// The status that a read of the first menu item stands for: a menu is up
/// where its first byte bears the mark.
pub open spec fn status_read(read: Result<Seq<u8>, Error>) -> Result<Status, Error> {
    match read {
        Ok(bytes) => if bytes.len() > 0 {
            Ok(
                if bytes[0] == MENU_MARK {
                    Status::InMenu
                } else {
                    Status::InGame
                },
            )
        } else {
            Err(Error::InvalidMemoryRead)
        },
        Err(_) => Err(Error::InvalidMemoryRead),
    }
}

/// The observation that the three reads make up. Any failed read fails
/// the whole.
pub open spec fn info_read(
    stage: Result<Seq<u8>, Error>,
    time: Result<Seq<u8>, Error>,
    menu: Result<Seq<u8>, Error>,
) -> Result<GameInfo, Error> {
    match (stage_read(stage), time_read(time), status_read(menu)) {
        (Ok(stage), Ok(time), Ok(status)) => Ok(GameInfo { time, stage, status }),
        _ => Err(Error::InvalidMemoryRead),
    }
}

/// Whether an observation through `reader` may get these three reads. Each
/// is held to what the reader admits as far as the observation comes to
/// ask for it: a failed read ends the observation.
pub open spec fn may_read_match<R: ReadDolphinMemory>(
    reader: &R,
    stage: Result<Vec<u8>, Error>,
    time: Result<Vec<u8>, Error>,
    menu: Result<Vec<u8>, Error>,
) -> bool {
    &&& may_read(reader, LogicalAddress(STAGE_ADDRESS), 1, stage)
    &&& stage_read(read_view(stage)) is Ok ==> {
        &&& may_read(reader, LogicalAddress(TIME_ADDRESS), 4, time)
        &&& time_read(read_view(time)) is Ok ==> may_read(
            reader,
            LogicalAddress(MENU_ADDRESS),
            1,
            menu,
        )
    }
}

/// Whether an observation through `reader` may end in `outcome`: the
/// reader admits three reads that make it up.
pub open spec fn may_read_info<R: ReadDolphinMemory>(
    reader: &R,
    outcome: Result<GameInfo, Error>,
) -> bool {
    exists|
        stage: Result<Vec<u8>, Error>,
        time: Result<Vec<u8>, Error>,
        menu: Result<Vec<u8>, Error>,
    | #[trigger]
        may_read_match(reader, stage, time, menu) && outcome == info_read(
            read_view(stage),
            read_view(time),
            read_view(menu),
        )
}

/// What the attempt to open a process and the observation through it come
/// to: an observation through the memory that was opened, and access
/// denied where none was.
pub open spec fn polled<S: Processes>(opened: Option<S::Memory>, outcome: Result<GameInfo, Error>) -> bool {
    match opened {
        Some(memory) => may_read_info(&DolphinHandle(memory), outcome),
        None => outcome == Err::<GameInfo, Error>(Error::DolphinAccessDenied),
    }
}

/// Whether an observation of the process `pid` may end in `outcome`.
pub open spec fn may_poll_match<S: Processes>(
    system: &S,
    pid: S::Pid,
    outcome: Result<GameInfo, Error>,
) -> bool {
    exists|opened: Option<S::Memory>| #[trigger]
        may_open(system, pid, opened) && polled::<S>(opened, outcome)
}

/// Whether a search for the game on a machine with these processes may
/// end in `outcome`: an observation of the first process that bears the
/// emulator's name, and not found where there is none.
pub open spec fn may_find<S: Processes>(
    system: &S,
    listed: Seq<(S::Pid, String)>,
    outcome: Result<GameInfo, Error>,
) -> bool {
    if exists|i: int| first_dolphin_at(listed, i) {
        forall|i: int| first_dolphin_at(listed, i) ==> may_poll_match(system, listed[i].0, outcome)
    } else {
        outcome == Err::<GameInfo, Error>(Error::DolphinNotFound)
    }
}

/// Takes the stage out of a read of the stage byte.
pub fn decode_stage(read: Result<Vec<u8>, Error>) -> (stage: Result<StageId, Error>)
    ensures
        stage == stage_read(read_view(read)),
{
    match read {
        Ok(bytes) => if bytes.len() > 0 {
            Ok(StageId(bytes[0]))
        } else {
            Err(Error::InvalidMemoryRead)
        },
        Err(_) => Err(Error::InvalidMemoryRead),
    }
}

/// Takes the seconds out of a read of the match clock.
pub fn decode_time(read: Result<Vec<u8>, Error>) -> (time: Result<u64, Error>)
    ensures
        time == time_read(read_view(read)),
{
    match read {
        Ok(bytes) => match read_u32_be(&bytes) {
            Some(seconds) => Ok(seconds as u64),
            None => Err(Error::InvalidMemoryRead),
        },
        Err(_) => Err(Error::InvalidMemoryRead),
    }
}

/// Takes the status out of a read of the first menu item.
pub fn decode_status(read: Result<Vec<u8>, Error>) -> (status: Result<Status, Error>)
    ensures
        status == status_read(read_view(read)),
{
    match read {
        Ok(bytes) => if bytes.len() > 0 {
            match bytes[0] {
                0x81 => Ok(Status::InMenu),
                _ => Ok(Status::InGame),
            }
        } else {
            Err(Error::InvalidMemoryRead)
        },
        Err(_) => Err(Error::InvalidMemoryRead),
    }
}

/// Observes the game in the process `pid`: opens its memory and reads the
/// stage, the match clock and the menu, in this order. Memory that does
/// not open is access denied.
pub fn poll_match_info<S: Processes>(system: &S, pid: S::Pid) -> (outcome: Result<GameInfo, Error>)
    ensures
        may_poll_match(system, pid, outcome),
{
    let opened = system.open(pid);
    let ghost attempt = opened;
    assert(may_open(system, pid, attempt));
    let reader = match opened {
        Some(memory) => DolphinHandle(memory),
        None => {
            assert(polled::<S>(attempt, Err(Error::DolphinAccessDenied)));
            return Err(Error::DolphinAccessDenied);
        },
    };
    let stage_bytes = reader.memread(LogicalAddress(STAGE_ADDRESS), 1);
    let ghost stage_seen = stage_bytes;
    let stage = match decode_stage(stage_bytes) {
        Ok(stage) => stage,
        Err(e) => {
            assert(may_read_match(&reader, stage_seen, stage_seen, stage_seen));
            assert(polled::<S>(attempt, Err(e)));
            return Err(e);
        },
    };
    let time_bytes = reader.memread(LogicalAddress(TIME_ADDRESS), 4);
    let ghost time_seen = time_bytes;
    let time = match decode_time(time_bytes) {
        Ok(time) => time,
        Err(e) => {
            assert(may_read_match(&reader, stage_seen, time_seen, time_seen));
            assert(polled::<S>(attempt, Err(e)));
            return Err(e);
        },
    };
    let menu_bytes = reader.memread(LogicalAddress(MENU_ADDRESS), 1);
    assert(may_read_match(&reader, stage_seen, time_seen, menu_bytes));
    let outcome = match decode_status(menu_bytes) {
        Ok(status) => Ok(GameInfo { time, stage, status }),
        Err(e) => Err(e),
    };
    assert(polled::<S>(attempt, outcome));
    outcome
}

/// What a search handed back, as the observation that it holds.
pub open spec fn locate_view(outcome: Result<Melee, Error>) -> Result<GameInfo, Error> {
    match outcome {
        Ok(melee) => Ok(melee.game_info),
        Err(e) => Err(e),
    }
}

impl Melee {
    /// Finds the game on the machine: lists the processes, takes the first
    /// that bears the emulator's name, and observes the game in it.
    pub fn locate<S: Processes>(system: &S) -> (outcome: Result<Melee, Error>)
        ensures
            exists|listed: Vec<(S::Pid, String)>| #[trigger]
                may_list(system, listed) && may_find(system, listed@, locate_view(outcome)),
    {
        let listed = system.list();
        assert(may_list(system, listed));
        let pid = match find_dolphin_pid(&listed) {
            Ok(pid) => pid,
            Err(e) => {
                assert forall|i: int| !first_dolphin_at(listed@, i) by {
                    if 0 <= i < listed@.len() {
                        assert(!is_dolphin(listed@[i].1@));
                    }
                }
                assert(may_find(system, listed@, Err(e)));
                return Err(e);
            },
        };
        let polled = poll_match_info(system, pid);
        proof {
            let found = choose|i: int| #[trigger]
                first_dolphin_at(listed@, i) && listed@[i].0 == pid;
            assert forall|i: int| first_dolphin_at(listed@, i) implies may_poll_match(
                system,
                listed@[i].0,
                polled,
            ) by {
                lemma_first_dolphin_is_unique(listed@, i, found);
            }
            assert(may_find(system, listed@, polled));
        }
        match polled {
            Ok(game_info) => Ok(Melee { game_info }),
            Err(e) => Err(e),
        }
    }
}

} // verus!
