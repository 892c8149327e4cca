use game_controller_core::action::{apply, Action, IllegalActionError};
use game_controller_core::context::{ActionContext, Game, Phase};
use game_controller_core::pause::Pause;
use game_controller_core::resume::Resume;

fn running_context() -> ActionContext {
    ActionContext {
        game: Game {
            phase: Phase::InProgress,
            is_paused: false,
            clock_millis: 600_000,
            home_score: 2,
            away_score: 1,
        },
    }
}

fn paused_context() -> ActionContext {
    ActionContext {
        game: Game {
            phase: Phase::InProgress,
            is_paused: true,
            clock_millis: 600_000,
            home_score: 2,
            away_score: 1,
        },
    }
}

#[test]
fn legality_partitions_the_flag() {
    let running = running_context();
    assert!(Pause.is_legal(&running));
    assert!(!Resume.is_legal(&running));

    let paused = paused_context();
    assert!(!Pause.is_legal(&paused));
    assert!(Resume.is_legal(&paused));
}

#[test]
fn legality_ignores_the_phase() {
    for phase in [Phase::NotStarted, Phase::InProgress, Phase::Finished] {
        let mut c = running_context();
        c.game.phase = phase;
        assert!(Pause.is_legal(&c));
        assert!(!Resume.is_legal(&c));
        c.game.is_paused = true;
        assert!(!Pause.is_legal(&c));
        assert!(Resume.is_legal(&c));
    }
}

#[test]
fn pause_when_running_freezes_in_place() {
    let mut c = running_context();
    let r = apply(&Action::Pause(Pause), &mut c);
    assert_eq!(r, Ok(()));
    assert!(c.game.is_paused);
    assert_eq!(c.game.phase, Phase::InProgress);
    assert_eq!(c.game.clock_millis, 600_000);
    assert_eq!(c.game.home_score, 2);
    assert_eq!(c.game.away_score, 1);
}

#[test]
fn pause_when_already_paused_is_rejected() {
    let before = paused_context();
    let mut c = before;
    let r = apply(&Action::Pause(Pause), &mut c);
    assert_eq!(r, Err(IllegalActionError));
    assert_eq!(c, before);
}

#[test]
fn resume_when_paused_unfreezes_in_place() {
    let mut c = paused_context();
    let r = apply(&Action::Resume(Resume), &mut c);
    assert_eq!(r, Ok(()));
    assert!(!c.game.is_paused);
    assert_eq!(c.game.phase, Phase::InProgress);
    assert_eq!(c.game.clock_millis, 600_000);
    assert_eq!(c.game.home_score, 2);
    assert_eq!(c.game.away_score, 1);
}

#[test]
fn resume_when_running_is_rejected() {
    let before = running_context();
    let mut c = before;
    let r = apply(&Action::Resume(Resume), &mut c);
    assert_eq!(r, Err(IllegalActionError));
    assert_eq!(c, before);
}

#[test]
fn repeated_illegal_applications_never_mutate() {
    let before = paused_context();
    let mut c = before;
    for _ in 0..5 {
        assert_eq!(apply(&Action::Pause(Pause), &mut c), Err(IllegalActionError));
        assert_eq!(c, before);
    }

    let before = running_context();
    let mut c = before;
    for _ in 0..5 {
        assert_eq!(apply(&Action::Resume(Resume), &mut c), Err(IllegalActionError));
        assert_eq!(c, before);
    }
}

#[test]
fn pause_then_resume_restores_the_context() {
    let before = ActionContext {
        game: Game {
            phase: Phase::InProgress,
            is_paused: false,
            clock_millis: u64::MAX,
            home_score: u32::MAX,
            away_score: 0,
        },
    };
    let mut c = before;
    assert_eq!(apply(&Action::Pause(Pause), &mut c), Ok(()));
    assert_eq!(apply(&Action::Resume(Resume), &mut c), Ok(()));
    assert_eq!(c, before);
}

#[test]
fn execute_changes_only_the_flag() {
    let mut c = running_context();
    Pause.execute(&mut c);
    let mut expected = running_context();
    expected.game.is_paused = true;
    assert_eq!(c, expected);

    Resume.execute(&mut c);
    assert_eq!(c, running_context());
}

#[test]
fn rejection_keeps_the_engine_usable() {
    let mut c = running_context();
    assert_eq!(apply(&Action::Resume(Resume), &mut c), Err(IllegalActionError));
    assert_eq!(apply(&Action::Pause(Pause), &mut c), Ok(()));
    assert!(c.game.is_paused);
}
