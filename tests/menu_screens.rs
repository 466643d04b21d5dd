use pong::menu::{HighScore, HighScoreState, MenuKeys, StartState, StateKind, StateMachine};
use pong::sound::SoundKind;

fn keys(up: bool, down: bool, enter: bool, escape: bool) -> MenuKeys {
    MenuKeys { up, down, enter, escape }
}

#[test]
fn sound_names() {
    assert_eq!(SoundKind::PaddleHit.to_string(), "PaddleHit");
    assert_eq!(SoundKind::NoSelect.to_string(), "NoSelect");
    assert_eq!(SoundKind::BrickHit2.to_string(), "BrickHit2");
    assert_eq!(SoundKind::Music.to_string(), "Music");
}

#[test]
fn state_names() {
    assert_eq!(StateKind::Start(3).to_string(), "start");
    assert_eq!(StateKind::HighScores(0).to_string(), "highscores");
    assert_eq!(StateKind::PaddleSelect(1).to_string(), "paddleselect");
}

#[test]
fn high_score_entry() {
    let h = HighScore::new("ann".to_string(), 120);
    assert_eq!(h.name, "ann");
    assert_eq!(h.score, 120);
}

#[test]
fn start_screen_toggles_and_confirms() {
    let mut s = StartState::new();
    let step = s.update(keys(false, true, false, false));
    assert_eq!(s.highlighted, 2);
    assert_eq!(step.next, None);
    assert_eq!(step.sounds, vec![SoundKind::PaddleHit]);
    let step = s.update(keys(false, false, true, false));
    assert_eq!(step.next, Some(StateKind::HighScores(0)));
    assert_eq!(step.sounds, vec![SoundKind::Confirm]);
    let step = s.update(keys(true, false, true, false));
    assert_eq!(s.highlighted, 1);
    assert_eq!(step.next, Some(StateKind::PaddleSelect(0)));
    assert_eq!(step.sounds, vec![SoundKind::PaddleHit, SoundKind::Confirm]);
}

#[test]
fn high_score_screen_returns_on_escape() {
    let mut h = HighScoreState::new();
    h.enter(StateKind::HighScores(4));
    assert_eq!(h.update(keys(false, false, false, false)).next, None);
    let step = h.update(keys(false, false, false, true));
    assert_eq!(step.next, Some(StateKind::Start(4)));
    assert_eq!(step.sounds, vec![SoundKind::WallHit]);
}

#[test]
fn machine_switches_screens() {
    let mut m = StateMachine::new();
    assert_eq!(m.update(keys(false, false, true, false)).unwrap(), vec![]);
    assert!(m.change(StateKind::Start(2)));
    assert_eq!(m.current, Some(StateKind::Start(2)));
    assert_eq!(m.start.high_scores, 2);
    m.update(keys(true, false, false, false)).unwrap();
    let sounds = m.update(keys(false, false, true, false)).unwrap();
    assert_eq!(sounds, vec![SoundKind::Confirm]);
    assert_eq!(m.current, Some(StateKind::HighScores(2)));
    m.update(keys(false, false, false, true)).unwrap();
    assert_eq!(m.current, Some(StateKind::Start(2)));
}

#[test]
fn machine_reports_missing_screen() {
    let mut m = StateMachine::new();
    assert!(!m.change(StateKind::PaddleSelect(0)));
    assert_eq!(m.current, None);
    m.change(StateKind::Start(0));
    assert_eq!(m.update(keys(false, false, true, false)), Err(StateKind::PaddleSelect(0)));
    assert_eq!(m.current, Some(StateKind::Start(0)));
}
