//! The sound effects that game events ask the audio collaborator to play.
use vstd::prelude::*;

verus! {

#[derive(Clone, Copy, Debug, PartialEq, Eq, Structural)]
pub enum SoundKind {
    PaddleHit,
    Score,
    WallHit,
    Confirm,
    Select,
    NoSelect,
    BrickHit1,
    BrickHit2,
    Hurt,
    Victory,
    Recover,
    HighScore,
    Pause,
    Music,
}

/// The key under which a sound is registered: the variant's name.
pub open spec fn sound_key(k: SoundKind) -> Seq<char> {
    match k {
        SoundKind::PaddleHit => "PaddleHit"@,
        SoundKind::Score => "Score"@,
        SoundKind::WallHit => "WallHit"@,
        SoundKind::Confirm => "Confirm"@,
        SoundKind::Select => "Select"@,
        SoundKind::NoSelect => "NoSelect"@,
        SoundKind::BrickHit1 => "BrickHit1"@,
        SoundKind::BrickHit2 => "BrickHit2"@,
        SoundKind::Hurt => "Hurt"@,
        SoundKind::Victory => "Victory"@,
        SoundKind::Recover => "Recover"@,
        SoundKind::HighScore => "HighScore"@,
        SoundKind::Pause => "Pause"@,
        SoundKind::Music => "Music"@,
    }
}

impl SoundKind {
    pub fn to_string(self) -> (r: String)
        ensures
            r@ == sound_key(self),
    {
        match self {
            SoundKind::PaddleHit => "PaddleHit".to_string(),
            SoundKind::Score => "Score".to_string(),
            SoundKind::WallHit => "WallHit".to_string(),
            SoundKind::Confirm => "Confirm".to_string(),
            SoundKind::Select => "Select".to_string(),
            SoundKind::NoSelect => "NoSelect".to_string(),
            SoundKind::BrickHit1 => "BrickHit1".to_string(),
            SoundKind::BrickHit2 => "BrickHit2".to_string(),
            SoundKind::Hurt => "Hurt".to_string(),
            SoundKind::Victory => "Victory".to_string(),
            SoundKind::Recover => "Recover".to_string(),
            SoundKind::HighScore => "HighScore".to_string(),
            SoundKind::Pause => "Pause".to_string(),
            SoundKind::Music => "Music".to_string(),
        }
    }
}

} // verus!
