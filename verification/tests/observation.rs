use melee_music::dolphin::{
    find_dolphin_pid, DolphinHandle, LogicalAddress, PhysicalAddress, Poll, ProcessMemory,
    Processes, ReadDolphinMemory,
};
use melee_music::game::Error;
use melee_music::melee::{first_byte, GameInfo, Melee, StageId, Status};
use std::cell::RefCell;
use std::collections::HashMap;

/// A reader over a fixed picture of the console's memory. It keeps a log of
/// the addresses that were asked for.
struct Picture {
    bytes: HashMap<usize, u8>,
    asked: RefCell<Vec<(usize, usize)>>,
}

impl Picture {
    fn of(stage: Option<u8>, pause: Option<u8>, ingame: Option<u8>) -> Picture {
        let mut bytes = HashMap::new();
        if let Some(stage) = stage {
            bytes.insert(0x8045_AC67, stage);
        }
        if let Some(pause) = pause {
            bytes.insert(0x8047_9D68, pause);
        }
        if let Some(ingame) = ingame {
            bytes.insert(0x8047_9D88, ingame);
        }
        Picture { bytes, asked: RefCell::new(Vec::new()) }
    }
}

impl ReadDolphinMemory for Picture {
    fn memread(&self, address: LogicalAddress, size: usize) -> Result<Vec<u8>, Error> {
        self.asked.borrow_mut().push((address.0, size));
        let mut read = Vec::new();
        for i in 0..size {
            match self.bytes.get(&(address.0 + i)) {
                Some(byte) => read.push(*byte),
                None => return Err(Error::DolphinAccessDenied),
            }
        }
        Ok(read)
    }
}

/// A reader that answers every read with no bytes at all.
struct Mute;

impl ReadDolphinMemory for Mute {
    fn memread(&self, _address: LogicalAddress, _size: usize) -> Result<Vec<u8>, Error> {
        Ok(Vec::new())
    }
}

/// The memory of a process, as bytes from an offset on.
struct Region {
    offset: usize,
    bytes: Vec<u8>,
}

impl ProcessMemory for Region {
    fn copy_address(&self, offset: usize, length: usize) -> Option<Vec<u8>> {
        let from = offset.checked_sub(self.offset)?;
        let to = from.checked_add(length)?;
        self.bytes.get(from..to).map(|bytes| bytes.to_vec())
    }
}

/// A machine with a list of processes, some of which refuse to be opened.
struct Machine {
    listed: Vec<(u32, String)>,
    closed: Vec<u32>,
    opened: RefCell<Vec<u32>>,
}

impl Machine {
    fn running(list: &[(u32, &str)], closed: &[u32]) -> Machine {
        Machine { listed: named(list), closed: closed.to_vec(), opened: RefCell::new(Vec::new()) }
    }
}

impl Processes for Machine {
    type Pid = u32;

    type Memory = Region;

    fn list(&self) -> Vec<(u32, String)> {
        self.listed.clone()
    }

    fn open(&self, pid: u32) -> Option<Region> {
        self.opened.borrow_mut().push(pid);
        if self.closed.contains(&pid) {
            None
        } else {
            Some(Region { offset: 0x7FFF_0000 + pid as usize, bytes: vec![pid as u8, 0x02, 0x01] })
        }
    }
}

fn named(list: &[(u32, &str)]) -> Vec<(u32, String)> {
    list.iter().map(|(pid, name)| (*pid, name.to_string())).collect()
}

#[test]
fn translation_moves_the_base_to_the_mapping() {
    assert_eq!(PhysicalAddress::from(LogicalAddress(0x8000_0000)).0, 0x7FFF_0000);
}

#[test]
fn translation_shifts_every_address_alike() {
    assert_eq!(PhysicalAddress::from(LogicalAddress(0x8045_AC67)).0, 0x8044_AC67);
    assert_eq!(PhysicalAddress::from(LogicalAddress(0x8047_9D68)).0, 0x8046_9D68);
    assert_eq!(PhysicalAddress::from(LogicalAddress(0x8047_9D88)).0, 0x8046_9D88);
    assert_eq!(PhysicalAddress::from(LogicalAddress(0xFFFF_FFFF)).0, 0xFFFE_FFFF);
}

#[test]
fn translation_keeps_distinct_addresses_apart() {
    let mut seen = Vec::new();
    for logical in 0x8000_0000usize..0x8000_0100 {
        let physical = PhysicalAddress::from(LogicalAddress(logical)).0;
        assert_eq!(physical, logical - 0x8000_0000 + 0x7FFF_0000);
        assert!(!seen.contains(&physical));
        seen.push(physical);
    }
}

#[test]
fn finder_takes_the_process_named_dolphin() {
    let list = named(&[(4, "System"), (812, "Dolphin.exe"), (900, "explorer.exe")]);
    assert_eq!(find_dolphin_pid(&list), Ok(812));
}

#[test]
fn finder_takes_the_first_of_two_dolphins() {
    let list = named(&[(7, "Dolphin.exe"), (8, "Dolphin.exe")]);
    assert_eq!(find_dolphin_pid(&list), Ok(7));
}

#[test]
fn finder_matches_the_name_letter_for_letter() {
    let list = named(&[(1, "dolphin.exe"), (2, "Dolphin"), (3, "Dolphin.exe "), (4, "DOLPHIN.EXE")]);
    assert_eq!(find_dolphin_pid(&list), Err(Error::DolphinNotFound));
}

#[test]
fn finder_reports_an_absent_dolphin() {
    let none: Vec<(u32, String)> = Vec::new();
    assert_eq!(find_dolphin_pid(&none), Err(Error::DolphinNotFound));
    assert_eq!(find_dolphin_pid(&named(&[(1, "init")])), Err(Error::DolphinNotFound));
}

#[test]
fn first_byte_of_an_empty_read_is_invalid() {
    assert_eq!(first_byte(Ok(vec![])), Err(Error::InvalidMemoryRead));
}

#[test]
fn first_byte_is_the_first_of_the_bytes_read() {
    assert_eq!(first_byte(Ok(vec![7])), Ok(7));
    assert_eq!(first_byte(Ok(vec![7, 9])), Ok(7));
}

#[test]
fn first_byte_of_a_failed_read_is_invalid() {
    assert_eq!(first_byte(Err(Error::DolphinAccessDenied)), Err(Error::InvalidMemoryRead));
    assert_eq!(first_byte(Err(Error::InvalidMemoryRead)), Err(Error::InvalidMemoryRead));
}

#[test]
fn status_ended_comes_before_everything() {
    assert_eq!(Status::decode(0, 0x10), Status::Menu);
    assert_eq!(Status::decode(1, 0x10), Status::Menu);
    assert_eq!(Status::decode(0xFF, 0x10), Status::Menu);
}

#[test]
fn status_paused_comes_before_the_ingame_byte() {
    assert_eq!(Status::decode(0, 0x02), Status::Paused);
    assert_eq!(Status::decode(1, 0x02), Status::Paused);
}

#[test]
fn status_without_a_match_is_menu() {
    assert_eq!(Status::decode(0, 0), Status::Menu);
    assert_eq!(Status::decode(0, 0x01), Status::Menu);
    assert_eq!(Status::decode(0, 0x12), Status::Menu);
}

#[test]
fn status_otherwise_is_playing() {
    assert_eq!(Status::decode(1, 0), Status::Playing);
    assert_eq!(Status::decode(0x80, 0x03), Status::Playing);
    assert_eq!(Status::decode(0xFF, 0xFF), Status::Playing);
}

#[test]
fn status_is_one_of_three_for_every_pair_of_bytes() {
    for ingame in 0..=255u8 {
        for pause in 0..=255u8 {
            let expected = if pause == 0x10 {
                Status::Menu
            } else if pause == 0x02 {
                Status::Paused
            } else if ingame == 0 {
                Status::Menu
            } else {
                Status::Playing
            };
            assert_eq!(Status::decode(ingame, pause), expected);
        }
    }
}

#[test]
fn poll_reads_the_stage() {
    let melee = Melee(Picture::of(Some(8), None, None));
    let stage: Result<StageId, Error> = melee.poll();
    assert_eq!(stage, Ok(StageId(8)));
    assert_eq!(*melee.0.asked.borrow(), vec![(0x8045_AC67, 1)]);
}

#[test]
fn poll_reads_the_status_pause_byte_first() {
    let melee = Melee(Picture::of(None, Some(0x02), Some(1)));
    let status: Result<Status, Error> = melee.poll();
    assert_eq!(status, Ok(Status::Paused));
    assert_eq!(*melee.0.asked.borrow(), vec![(0x8047_9D68, 1), (0x8047_9D88, 1)]);
}

#[test]
fn poll_reads_stage_and_status() {
    let melee = Melee(Picture::of(Some(8), Some(0), Some(1)));
    let info: Result<GameInfo, Error> = melee.poll();
    assert_eq!(info, Ok(GameInfo { stage: StageId(8), status: Status::Playing }));
    assert_eq!(
        *melee.0.asked.borrow(),
        vec![(0x8045_AC67, 1), (0x8047_9D68, 1), (0x8047_9D88, 1)]
    );
}

#[test]
fn poll_gives_no_part_of_an_observation() {
    let no_stage = Melee(Picture::of(None, Some(0), Some(1)));
    let info: Result<GameInfo, Error> = no_stage.poll();
    assert_eq!(info, Err(Error::InvalidMemoryRead));
    assert_eq!(*no_stage.0.asked.borrow(), vec![(0x8045_AC67, 1)]);

    let no_pause = Melee(Picture::of(Some(8), None, Some(1)));
    let info: Result<GameInfo, Error> = no_pause.poll();
    assert_eq!(info, Err(Error::InvalidMemoryRead));
    assert_eq!(*no_pause.0.asked.borrow(), vec![(0x8045_AC67, 1), (0x8047_9D68, 1)]);

    let no_ingame = Melee(Picture::of(Some(8), Some(0), None));
    let info: Result<GameInfo, Error> = no_ingame.poll();
    assert_eq!(info, Err(Error::InvalidMemoryRead));
}

#[test]
fn poll_takes_a_read_without_bytes_as_invalid() {
    let melee = Melee(Mute);
    let stage: Result<StageId, Error> = melee.poll();
    assert_eq!(stage, Err(Error::InvalidMemoryRead));
    let status: Result<Status, Error> = melee.poll();
    assert_eq!(status, Err(Error::InvalidMemoryRead));
}

#[test]
fn melee_reads_through_its_reader() {
    let melee = Melee(Picture::of(Some(0x1F), None, None));
    assert_eq!(melee.memread(LogicalAddress(0x8045_AC67), 1), Ok(vec![0x1F]));
    assert_eq!(melee.memread(LogicalAddress(0x8045_AC68), 1), Err(Error::DolphinAccessDenied));
}

#[test]
fn handle_reads_at_the_translated_offset() {
    let handle = DolphinHandle(Region { offset: 0x8044_AC67, bytes: vec![8, 9, 10] });
    assert_eq!(handle.memread(LogicalAddress(0x8045_AC67), 1), Ok(vec![8]));
    assert_eq!(handle.memread(LogicalAddress(0x8045_AC68), 2), Ok(vec![9, 10]));
    assert_eq!(handle.memread(LogicalAddress(0x8045_AC67), 0), Ok(vec![]));
}

#[test]
fn handle_reports_what_cannot_be_copied_as_invalid() {
    let handle = DolphinHandle(Region { offset: 0x8044_AC67, bytes: vec![8, 9, 10] });
    assert_eq!(handle.memread(LogicalAddress(0x8045_AC66), 1), Err(Error::InvalidMemoryRead));
    assert_eq!(handle.memread(LogicalAddress(0x8045_AC69), 2), Err(Error::InvalidMemoryRead));
    assert_eq!(handle.memread(LogicalAddress(0x8044_AC67), 1), Err(Error::InvalidMemoryRead));
}

#[test]
fn locate_opens_the_first_dolphin() {
    let machine =
        Machine::running(&[(4, "System"), (20, "Dolphin.exe"), (30, "Dolphin.exe")], &[30]);
    let handle = DolphinHandle::locate(&machine).ok().unwrap();
    assert_eq!(handle.0.offset, 0x7FFF_0000 + 20);
    assert_eq!(*machine.opened.borrow(), vec![20]);
}

#[test]
fn locate_reports_an_absent_dolphin() {
    let machine = Machine::running(&[(4, "System"), (20, "dolphin.exe")], &[]);
    assert_eq!(DolphinHandle::locate(&machine).err(), Some(Error::DolphinNotFound));
    assert_eq!(*machine.opened.borrow(), vec![]);
}

#[test]
fn locate_reports_a_dolphin_that_does_not_open() {
    let machine = Machine::running(&[(20, "Dolphin.exe"), (30, "Dolphin.exe")], &[20]);
    assert_eq!(DolphinHandle::locate(&machine).err(), Some(Error::DolphinAccessDenied));
    assert_eq!(*machine.opened.borrow(), vec![20]);
}

#[test]
fn connect_gives_the_game_behind_the_handle() {
    let machine = Machine::running(&[(0x67, "Dolphin.exe")], &[]);
    let melee = Melee::connect(&machine).ok().unwrap();
    assert_eq!(melee.memread(LogicalAddress(0x8000_0067), 3), Ok(vec![0x67, 0x02, 0x01]));
}

#[test]
fn connect_fails_as_locate_does() {
    let absent = Machine::running(&[(1, "init")], &[]);
    assert_eq!(Melee::connect(&absent).err(), Some(Error::DolphinNotFound));
    let closed = Machine::running(&[(1, "Dolphin.exe")], &[1]);
    assert_eq!(Melee::connect(&closed).err(), Some(Error::DolphinAccessDenied));
}
