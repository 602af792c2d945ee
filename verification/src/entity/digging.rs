use vstd::prelude::*;

use crate::direction::Direction;

verus! {

/// The position of a block in the world.
#[derive(Clone, Copy, Debug, PartialEq, Eq, Structural)]
pub struct BlockPosition {
    pub x: i32,
    pub y: i32,
    pub z: i32,
}

/// A block being dug: the block (`B`), the face hit, its position, when the
/// digging started (`T`), and whether it was reported as broken.
#[derive(Clone, Copy)]
pub struct DiggingState<B, T> {
    pub block: B,
    pub face: Direction,
    pub position: BlockPosition,
    pub start: T,
    pub finished: bool,
}

/// The block the player points at: its position, the block, and the face.
pub type DigTarget<B> = (BlockPosition, B, Direction);

/// What the player digs after this frame: nothing without the left button
/// or without a target; the same block as before when the target did not
/// move; otherwise the target, from `now` on.
pub open spec fn next_digging<B, T>(
    last: Option<DiggingState<B, T>>,
    left: bool,
    target: Option<DigTarget<B>>,
    now: T,
) -> Option<DiggingState<B, T>> {
    if !left {
        None
    } else {
        match target {
            None => None,
            Some((position, block, face)) => match last {
                Some(current) => if position == current.position {
                    last
                } else {
                    Some(DiggingState { block, face, position, start: now, finished: false })
                },
                None => Some(DiggingState { block, face, position, start: now, finished: false }),
            },
        }
    }
}

/// The next state of the digging (see `next_digging`).
pub fn next_state<B: Copy, T: Copy>(
    last: &Option<DiggingState<B, T>>,
    left: bool,
    target: Option<DigTarget<B>>,
    now: T,
) -> (r: Option<DiggingState<B, T>>)
    ensures
        r == next_digging(*last, left, target, now),
{
    if !left {
        return None;
    }
    match (last, target) {
        (None, Some((position, block, face))) => Some(
            DiggingState { block, face, position, start: now, finished: false },
        ),
        (Some(current), Some((position, block, face))) => {
            if position == current.position {
                *last
            } else {
                Some(DiggingState { block, face, position, start: now, finished: false })
            }
        },
        (_, None) => None,
    }
}

/// What a frame of digging reports to the server.
#[derive(Clone, Copy, Debug, PartialEq, Eq, Structural)]
pub enum DigStep {
    Nothing,
    /// Digging starts on the current block.
    Start,
    /// Digging of the last block stops.
    Abort,
    /// The last block is left for the current one.
    AbortAndStart,
    /// The current block is broken.
    Finish,
}

/// The report for a frame, from the block dug before and the one dug now
/// (`done`: enough time has passed to break the current block with the tool
/// held).
pub open spec fn dig_step_of<B, T>(
    last: Option<DiggingState<B, T>>,
    current: Option<DiggingState<B, T>>,
    done: bool,
) -> DigStep {
    match (last, current) {
        (None, Some(_)) => DigStep::Start,
        (Some(l), None) => if !l.finished {
            DigStep::Abort
        } else {
            DigStep::Nothing
        },
        (Some(l), Some(c)) => if l.position != c.position {
            if !c.finished {
                DigStep::AbortAndStart
            } else {
                DigStep::Start
            }
        } else if done {
            DigStep::Finish
        } else {
            DigStep::Nothing
        },
        (None, None) => DigStep::Nothing,
    }
}

/// Decides a frame of digging and marks a broken block as finished. While a
/// block is dug, the arm swings and the crack shown grows.
pub fn dig_step<B: Copy, T: Copy>(
    last: &Option<DiggingState<B, T>>,
    current: &mut Option<DiggingState<B, T>>,
    done: bool,
) -> (s: DigStep)
    ensures
        s == dig_step_of(*last, *old(current), done),
        s == DigStep::Finish ==> *final(current) == Some(
            DiggingState { finished: true, ..old(current)->0 },
        ),
        s != DigStep::Finish ==> *final(current) == *old(current),
{
    match (last, &mut *current) {
        (None, Some(_)) => DigStep::Start,
        (Some(l), None) => {
            if !l.finished {
                DigStep::Abort
            } else {
                DigStep::Nothing
            }
        },
        (Some(l), Some(c)) => {
            if l.position != c.position {
                if !c.finished {
                    DigStep::AbortAndStart
                } else {
                    DigStep::Start
                }
            } else if done {
                c.finished = true;
                DigStep::Finish
            } else {
                DigStep::Nothing
            }
        },
        (None, None) => DigStep::Nothing,
    }
}

/// Letting go of the left button while a block is being dug, and not yet
/// broken, reports the digging as stopped; pointing at another block reports
/// the first as left and the second as started.
pub proof fn law_digging_stops_or_moves<B, T>(
    last: DiggingState<B, T>,
    target: Option<DigTarget<B>>,
    now: T,
    done: bool,
)
    requires
        !last.finished,
    ensures
        dig_step_of(Some(last), next_digging(Some(last), false, target, now), done) == DigStep::Abort,
        (target matches Some((p, _, _)) && p != last.position) ==> dig_step_of(
            Some(last),
            next_digging(Some(last), true, target, now),
            done,
        ) == DigStep::AbortAndStart,
{
}

} // verus!
