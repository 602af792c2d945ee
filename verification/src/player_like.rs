use vstd::prelude::*;

verus! {

/// The parts of a player-like model, each drawn by its own mesh.
#[derive(Clone, Copy, Debug, PartialEq, Eq, Structural)]
pub enum PlayerLikeModelPart {
    Head,
    Body,
    LegLeft,
    LegRight,
    ArmLeft,
    ArmRight,
    NameTag,
}

impl PlayerLikeModelPart {
    /// The position of this part's mesh in a model's list of parts.
    pub fn index(&self) -> (i: usize)
        ensures
            i == match self {
                PlayerLikeModelPart::Head => 0usize,
                PlayerLikeModelPart::Body => 1,
                PlayerLikeModelPart::LegLeft => 2,
                PlayerLikeModelPart::LegRight => 3,
                PlayerLikeModelPart::ArmLeft => 4,
                PlayerLikeModelPart::ArmRight => 5,
                PlayerLikeModelPart::NameTag => 6,
            },
    {
        match self {
            PlayerLikeModelPart::Head => 0,
            PlayerLikeModelPart::Body => 1,
            PlayerLikeModelPart::LegLeft => 2,
            PlayerLikeModelPart::LegRight => 3,
            PlayerLikeModelPart::ArmLeft => 4,
            PlayerLikeModelPart::ArmRight => 5,
            PlayerLikeModelPart::NameTag => 6,
        }
    }
}

} // verus!
