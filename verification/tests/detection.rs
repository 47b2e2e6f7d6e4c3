use melee_music::event::{
    Detect, Event, GameJoinEvent, GameLeaveEvent, GamePauseEvent, GameResumeEvent,
};
use melee_music::melee::{GameInfo, StageId, Status};

fn info(stage: u8, status: Status) -> GameInfo {
    GameInfo { stage: StageId(stage), status }
}

#[test]
fn menu_to_playing_is_a_join_with_the_new_observation() {
    let new = info(8, Status::Playing);
    assert_eq!(
        info(3, Status::Menu).detect(&new),
        vec![Event::GameJoin(GameJoinEvent { info: new })]
    );
}

#[test]
fn join_carries_the_new_stage_not_the_old() {
    let events = info(3, Status::Menu).detect(&info(8, Status::Playing));
    match events.as_slice() {
        [Event::GameJoin(join)] => {
            assert_eq!(join.info.stage, StageId(8));
            assert_eq!(join.info.status, Status::Playing);
        }
        other => panic!("unexpected events {:?}", other),
    }
}

#[test]
fn playing_to_menu_is_a_leave() {
    assert_eq!(
        info(8, Status::Playing).detect(&info(8, Status::Menu)),
        vec![Event::GameLeave(GameLeaveEvent)]
    );
}

#[test]
fn paused_to_menu_is_a_leave() {
    assert_eq!(
        info(8, Status::Paused).detect(&info(0, Status::Menu)),
        vec![Event::GameLeave(GameLeaveEvent)]
    );
}

#[test]
fn playing_to_paused_is_a_pause() {
    assert_eq!(
        info(8, Status::Playing).detect(&info(8, Status::Paused)),
        vec![Event::GamePause(GamePauseEvent)]
    );
}

#[test]
fn paused_to_playing_is_a_resume() {
    assert_eq!(
        info(8, Status::Paused).detect(&info(8, Status::Playing)),
        vec![Event::GameResume(GameResumeEvent)]
    );
}

#[test]
fn menu_to_paused_is_nothing() {
    assert_eq!(info(8, Status::Menu).detect(&info(8, Status::Paused)), vec![]);
}

#[test]
fn same_status_is_nothing_whatever_the_stage() {
    for status in [Status::Menu, Status::Playing, Status::Paused] {
        for old_stage in [0u8, 8, 255] {
            for new_stage in [0u8, 8, 255] {
                assert_eq!(info(old_stage, status).detect(&info(new_stage, status)), vec![]);
            }
        }
    }
}

#[test]
fn detection_follows_the_table_in_every_cell() {
    let all = [Status::Menu, Status::Playing, Status::Paused];
    for old in all {
        for new in all {
            let later = info(8, new);
            let expected = match (old, new) {
                (Status::Menu, Status::Playing) => {
                    vec![Event::GameJoin(GameJoinEvent { info: later })]
                }
                (Status::Playing, Status::Menu) => vec![Event::GameLeave(GameLeaveEvent)],
                (Status::Paused, Status::Menu) => vec![Event::GameLeave(GameLeaveEvent)],
                (Status::Playing, Status::Paused) => vec![Event::GamePause(GamePauseEvent)],
                (Status::Paused, Status::Playing) => vec![Event::GameResume(GameResumeEvent)],
                _ => vec![],
            };
            let events = info(3, old).detect(&later);
            assert!(events.len() <= 1);
            assert_eq!(events, expected);
        }
    }
}

#[test]
fn three_identical_snapshots_give_no_events() {
    let snapshot = info(8, Status::Playing);
    assert_eq!(snapshot.detect(&snapshot), vec![]);
    assert_eq!(snapshot.detect(&snapshot.clone()), vec![]);
    assert_eq!(snapshot.clone().detect(&snapshot), vec![]);
}
