use melee_music::dolphin::{ProcessMemory, Processes};
use melee_music::game::{
    decode_stage, decode_status, decode_time, poll_match_info, Error, GameInfo, Melee, StageId,
    Status,
};
use std::cell::RefCell;
use std::rc::Rc;

/// The memory of the emulator, as the three places that a coarse
/// observation reads, each under the offset that it translates to.
#[derive(Clone)]
struct Board {
    stage: Option<Vec<u8>>,
    time: Option<Vec<u8>>,
    menu: Option<Vec<u8>>,
    asked: Rc<RefCell<Vec<(usize, usize)>>>,
}

impl Board {
    fn of(stage: Option<Vec<u8>>, time: Option<Vec<u8>>, menu: Option<Vec<u8>>) -> Board {
        Board { stage, time, menu, asked: Rc::new(RefCell::new(Vec::new())) }
    }
}

impl ProcessMemory for Board {
    fn copy_address(&self, offset: usize, length: usize) -> Option<Vec<u8>> {
        self.asked.borrow_mut().push((offset, length));
        match offset {
            0x8042_208B => self.stage.clone(),
            0x8045_B6C8 => self.time.clone(),
            0x8135_F674 => self.menu.clone(),
            _ => None,
        }
    }
}

/// A machine on which the process 7 holds the board, where it has one.
struct Machine {
    listed: Vec<(u32, String)>,
    board: Option<Board>,
}

impl Machine {
    fn with(board: Board) -> Machine {
        Machine { listed: vec![(7, "Dolphin.exe".to_string())], board: Some(board) }
    }
}

impl Processes for Machine {
    type Pid = u32;

    type Memory = Board;

    fn list(&self) -> Vec<(u32, String)> {
        self.listed.clone()
    }

    fn open(&self, pid: u32) -> Option<Board> {
        if pid == 7 {
            self.board.clone()
        } else {
            None
        }
    }
}

#[test]
fn stage_is_the_first_byte() {
    assert_eq!(decode_stage(Ok(vec![8])), Ok(StageId(8)));
    assert_eq!(decode_stage(Ok(vec![])), Err(Error::InvalidMemoryRead));
    assert_eq!(decode_stage(Err(Error::DolphinNotFound)), Err(Error::InvalidMemoryRead));
}

#[test]
fn time_is_big_endian_seconds() {
    assert_eq!(decode_time(Ok(vec![0x00, 0x00, 0x01, 0x0b])), Ok(267));
    assert_eq!(decode_time(Ok(vec![0x01, 0x02, 0x03, 0x04])), Ok(0x0102_0304));
    assert_eq!(decode_time(Ok(vec![0xff, 0xff, 0xff, 0xff])), Ok(0xffff_ffff));
    assert_eq!(decode_time(Ok(vec![0, 0, 0, 0])), Ok(0));
    assert_eq!(decode_time(Ok(vec![0, 0, 0, 1, 9])), Ok(1));
}

#[test]
fn time_needs_four_bytes() {
    assert_eq!(decode_time(Ok(vec![0, 0, 1])), Err(Error::InvalidMemoryRead));
    assert_eq!(decode_time(Ok(vec![])), Err(Error::InvalidMemoryRead));
    assert_eq!(decode_time(Err(Error::InvalidMemoryRead)), Err(Error::InvalidMemoryRead));
}

#[test]
fn menu_mark_means_menu() {
    assert_eq!(decode_status(Ok(vec![0x81])), Ok(Status::InMenu));
    assert_eq!(decode_status(Ok(vec![0x80])), Ok(Status::InGame));
    assert_eq!(decode_status(Ok(vec![0])), Ok(Status::InGame));
    assert_eq!(decode_status(Ok(vec![])), Err(Error::InvalidMemoryRead));
    assert_eq!(decode_status(Err(Error::DolphinAccessDenied)), Err(Error::InvalidMemoryRead));
}

#[test]
fn match_info_is_read_in_three_reads() {
    let board = Board::of(Some(vec![8]), Some(vec![0, 0, 1, 0x0b]), Some(vec![0x3c]));
    let machine = Machine::with(board.clone());
    assert_eq!(
        poll_match_info(&machine, 7),
        Ok(GameInfo { time: 267, stage: StageId(8), status: Status::InGame })
    );
    assert_eq!(
        *board.asked.borrow(),
        vec![(0x8042_208B, 1), (0x8045_B6C8, 4), (0x8135_F674, 1)]
    );
}

#[test]
fn match_info_sees_the_menu() {
    let board = Board::of(Some(vec![0]), Some(vec![0, 0, 0, 0]), Some(vec![0x81]));
    assert_eq!(
        poll_match_info(&Machine::with(board), 7),
        Ok(GameInfo { time: 0, stage: StageId(0), status: Status::InMenu })
    );
}

#[test]
fn match_info_fails_with_any_read() {
    let no_stage = Board::of(None, Some(vec![0, 0, 0, 0]), Some(vec![0x81]));
    assert_eq!(
        poll_match_info(&Machine::with(no_stage.clone()), 7),
        Err(Error::InvalidMemoryRead)
    );
    assert_eq!(*no_stage.asked.borrow(), vec![(0x8042_208B, 1)]);

    let short_time = Board::of(Some(vec![8]), Some(vec![0, 0]), Some(vec![0x81]));
    assert_eq!(
        poll_match_info(&Machine::with(short_time.clone()), 7),
        Err(Error::InvalidMemoryRead)
    );
    assert_eq!(*short_time.asked.borrow(), vec![(0x8042_208B, 1), (0x8045_B6C8, 4)]);

    let no_menu = Board::of(Some(vec![8]), Some(vec![0, 0, 0, 0]), None);
    assert_eq!(poll_match_info(&Machine::with(no_menu), 7), Err(Error::InvalidMemoryRead));
}

#[test]
fn match_info_without_access_is_denied() {
    let board = Board::of(Some(vec![8]), Some(vec![0, 0, 0, 0]), Some(vec![0x81]));
    assert_eq!(poll_match_info(&Machine::with(board), 8), Err(Error::DolphinAccessDenied));
}

#[test]
fn locate_holds_the_first_observation() {
    let board = Board::of(Some(vec![8]), Some(vec![0, 0, 0, 60]), Some(vec![0]));
    assert_eq!(
        Melee::locate(&Machine::with(board)),
        Ok(Melee { game_info: GameInfo { time: 60, stage: StageId(8), status: Status::InGame } })
    );
}

#[test]
fn locate_needs_a_dolphin_that_opens() {
    let nothing = Machine { listed: vec![(7, "Dolphin".to_string())], board: None };
    assert_eq!(Melee::locate(&nothing), Err(Error::DolphinNotFound));
    let closed = Machine { listed: vec![(7, "Dolphin.exe".to_string())], board: None };
    assert_eq!(Melee::locate(&closed), Err(Error::DolphinAccessDenied));
}
