//! The Breakout menu: its screens, and the state machine that switches between them.
use crate::sound::SoundKind;
use vstd::prelude::*;

verus! {

/// A screen of the menu, with the number of high scores it carries along.
#[derive(Clone, Copy, Debug, PartialEq, Eq, Structural)]
pub enum StateKind {
    HighScores(u32),
    PaddleSelect(u32),
    Start(u32),
}

/// The key under which a screen is registered.
pub open spec fn state_key(k: StateKind) -> Seq<char> {
    match k {
        StateKind::HighScores(_) => "highscores"@,
        StateKind::PaddleSelect(_) => "paddleselect"@,
        StateKind::Start(_) => "start"@,
    }
}

impl StateKind {
    pub fn to_string(&self) -> (r: String)
        ensures
            r@ == state_key(*self),
    {
        match self {
            StateKind::HighScores(_) => "highscores".to_string(),
            StateKind::PaddleSelect(_) => "paddleselect".to_string(),
            StateKind::Start(_) => "start".to_string(),
        }
    }
}

/// An entry of the high-score table.
pub struct HighScore {
    pub name: String,
    pub score: u32,
}

impl HighScore {
    pub fn new(name: String, score: u32) -> (r: HighScore)
        ensures
            r.name == name,
            r.score == score,
    {
        HighScore { name, score }
    }
}

/// Keys pressed during one frame; each press counts once.
#[derive(Clone, Copy, Debug, PartialEq, Eq, Structural)]
pub struct MenuKeys {
    pub up: bool,
    pub down: bool,
    pub enter: bool,
    pub escape: bool,
}

/// The title screen: a choice between starting a game (item 1) and the high scores (item 2).
#[derive(Clone, Copy, Debug, PartialEq, Eq, Structural)]
pub struct StartState {
    pub highlighted: u32,
    pub high_scores: u32,
}

/// Outcome of one frame on a screen: the screen to change to, if any, and the sounds to play.
pub struct ScreenStep {
    pub next: Option<StateKind>,
    pub sounds: Vec<SoundKind>,
}

impl StartState {
    /// The highlighted item after the keys of a frame: up or down moves to the other item.
    pub open spec fn highlight_after(self, keys: MenuKeys) -> u32 {
        if keys.up || keys.down {
            if self.highlighted == 1 {
                2
            } else {
                1
            }
        } else {
            self.highlighted
        }
    }

    /// The screen chosen in a frame: enter picks the highlighted item.
    pub open spec fn choice(self, keys: MenuKeys) -> Option<StateKind> {
        if keys.enter {
            if self.highlight_after(keys) == 1 {
                Some(StateKind::PaddleSelect(self.high_scores))
            } else {
                Some(StateKind::HighScores(self.high_scores))
            }
        } else {
            None
        }
    }

    pub open spec fn step_sounds(self, keys: MenuKeys) -> Seq<SoundKind> {
        (if keys.up || keys.down { seq![SoundKind::PaddleHit] } else { seq![] }) + (if keys.enter {
            seq![SoundKind::Confirm]
        } else {
            seq![]
        })
    }

    pub fn new() -> (r: StartState)
        ensures
            r.highlighted == 1,
            r.high_scores == 0,
    {
        StartState { high_scores: 0, highlighted: 1 }
    }

    /// Enters the title screen, taking the high-score count that `params` carries.
    pub fn enter(&mut self, params: StateKind)
        requires
            params is Start,
        ensures
            *final(self) == (StartState { high_scores: params->Start_0, ..*old(self) }),
    {
        if let StateKind::Start(high_scores) = params {
            self.high_scores = high_scores;
        }
    }

    pub fn update(&mut self, keys: MenuKeys) -> (r: ScreenStep)
        ensures
            *final(self) == (StartState { highlighted: old(self).highlight_after(keys), ..*old(self) }),
            r.next == old(self).choice(keys),
            r.sounds@ == old(self).step_sounds(keys),
    {
        let mut sounds: Vec<SoundKind> = Vec::new();
        if keys.up || keys.down {
            self.highlighted = if self.highlighted == 1 { 2 } else { 1 };
            sounds.push(SoundKind::PaddleHit);
        }
        let next = if keys.enter {
            sounds.push(SoundKind::Confirm);
            if self.highlighted == 1 {
                Some(StateKind::PaddleSelect(self.high_scores))
            } else {
                Some(StateKind::HighScores(self.high_scores))
            }
        } else {
            None
        };
        assert(sounds@ =~= old(self).step_sounds(keys));
        ScreenStep { next, sounds }
    }
}

/// The high-score screen.
#[derive(Clone, Copy, Debug, PartialEq, Eq, Structural)]
pub struct HighScoreState {
    pub high_scores: u32,
}

impl HighScoreState {
    pub fn new() -> (r: HighScoreState)
        ensures
            r.high_scores == 0,
    {
        HighScoreState { high_scores: 0 }
    }

    /// Enters the high-score screen, taking the high-score count that `params` carries.
    pub fn enter(&mut self, params: StateKind)
        requires
            params is HighScores,
        ensures
            final(self).high_scores == params->HighScores_0,
    {
        if let StateKind::HighScores(high_scores) = params {
            self.high_scores = high_scores;
        }
    }

    /// Escape goes back to the title screen.
    pub fn update(&self, keys: MenuKeys) -> (r: ScreenStep)
        ensures
            r.next == (if keys.escape { Some(StateKind::Start(self.high_scores)) } else { None }),
            r.sounds@ == (if keys.escape { seq![SoundKind::WallHit] } else { seq![] }),
    {
        let mut sounds: Vec<SoundKind> = Vec::new();
        if keys.escape {
            sounds.push(SoundKind::WallHit);
            ScreenStep { next: Some(StateKind::Start(self.high_scores)), sounds }
        } else {
            ScreenStep { next: None, sounds }
        }
    }
}

/// The kinds that have a screen: all but paddle selection, which has none yet.
pub open spec fn has_screen(k: StateKind) -> bool {
    !(k is PaddleSelect)
}

/// The menu's screens and the one that is shown, if any.
pub struct StateMachine {
    pub start: StartState,
    pub high_score: HighScoreState,
    pub current: Option<StateKind>,
}

impl StateMachine {
    /// Only screens that exist are shown.
    pub open spec fn wf(&self) -> bool {
        self.current is Some ==> has_screen(self.current->0)
    }

    /// The machine after switching to the screen for `params`, which enters it with what
    /// `params` carries.
    pub open spec fn entered(self, params: StateKind) -> StateMachine {
        match params {
            StateKind::Start(h) => StateMachine {
                start: StartState { high_scores: h, ..self.start },
                current: Some(params),
                ..self
            },
            StateKind::HighScores(h) => StateMachine {
                high_score: HighScoreState { high_scores: h },
                current: Some(params),
                ..self
            },
            StateKind::PaddleSelect(_) => self,
        }
    }

    /// The machine after the shown screen's own frame, the screen that it asks for, and the
    /// sounds it plays.
    pub open spec fn screen_step(self, keys: MenuKeys) -> (StateMachine, Option<StateKind>, Seq<SoundKind>) {
        match self.current {
            Some(StateKind::Start(_)) => (
                StateMachine {
                    start: StartState { highlighted: self.start.highlight_after(keys), ..self.start },
                    ..self
                },
                self.start.choice(keys),
                self.start.step_sounds(keys),
            ),
            Some(StateKind::HighScores(_)) => (
                self,
                if keys.escape { Some(StateKind::Start(self.high_score.high_scores)) } else { None },
                if keys.escape { seq![SoundKind::WallHit] } else { seq![] },
            ),
            _ => (self, None, seq![]),
        }
    }

    pub fn new() -> (r: StateMachine)
        ensures
            r.current is None,
            r.start == (StartState { highlighted: 1, high_scores: 0 }),
            r.high_score == (HighScoreState { high_scores: 0 }),
            r.wf(),
    {
        StateMachine { start: StartState::new(), high_score: HighScoreState::new(), current: None }
    }

    /// Switches to the screen for `params`. Where that kind has no screen nothing changes and
    /// the result is false.
    pub fn change(&mut self, params: StateKind) -> (ok: bool)
        requires
            old(self).wf(),
        ensures
            ok == has_screen(params),
            *final(self) == old(self).entered(params),
            final(self).wf(),
    {
        match params {
            StateKind::Start(_) => {
                self.start.enter(params);
                self.current = Some(params);
                true
            },
            StateKind::HighScores(_) => {
                self.high_score.enter(params);
                self.current = Some(params);
                true
            },
            StateKind::PaddleSelect(_) => false,
        }
    }

    /// Runs the shown screen for one frame with the keys pressed in it, and switches screen
    /// when it asks to. Returns the sounds to play, or the kind asked for when it has no screen.
    pub fn update(&mut self, keys: MenuKeys) -> (r: Result<Vec<SoundKind>, StateKind>)
        requires
            old(self).wf(),
        ensures
            final(self).wf(),
            ({
                let (after, next, sounds) = old(self).screen_step(keys);
                match next {
                    None => *final(self) == after && r is Ok && r->Ok_0@ == sounds,
                    Some(k) => if has_screen(k) {
                        *final(self) == after.entered(k) && r is Ok && r->Ok_0@ == sounds
                    } else {
                        *final(self) == after && r == Err::<Vec<SoundKind>, StateKind>(k)
                    },
                }
            }),
    {
        let step = match self.current {
            Some(StateKind::Start(_)) => self.start.update(keys),
            Some(StateKind::HighScores(_)) => self.high_score.update(keys),
            _ => ScreenStep { next: None, sounds: Vec::new() },
        };
        match step.next {
            Some(next) => {
                if self.change(next) {
                    Ok(step.sounds)
                } else {
                    Err(next)
                }
            },
            None => Ok(step.sounds),
        }
    }
}

} // verus!
