//! The key descriptors that the classifiers work on: hand, finger, stroke
//! direction and matrix position of a key, plus the symbol typed by it.

use vstd::prelude::*;

verus! {

/// The hand a key is assigned to.
#[derive(Clone, Copy, Debug, PartialEq, Eq, Structural)]
pub enum Hand {
    Left,
    Right,
}

/// The finger a key is assigned to, ordered from the centre of the keyboard
/// outwards: the thumb has index 0, the pinky index 4.
#[derive(Clone, Copy, Debug, PartialEq, Eq, Structural)]
pub enum Finger {
    Thumb,
    Index,
    Middle,
    Ring,
    Pinky,
}

/// The direction a finger moves away from its home position when it strokes
/// the key, relative to the finger's resting place.
#[derive(Clone, Copy, Debug, PartialEq, Eq, Structural)]
pub enum Direction {
    North,
    South,
    In,
    Out,
    Center,
}

/// The display name of a stroke direction.
pub open spec fn direction_name_spec(d: Direction) -> Seq<char> {
    match d {
        Direction::North => "North"@,
        Direction::South => "South"@,
        Direction::In => "In"@,
        Direction::Out => "Out"@,
        Direction::Center => "Center"@,
    }
}

impl Direction {
    /// The display name of the direction.
    pub fn display_name(&self) -> (r: String)
        ensures
            r@ == direction_name_spec(*self),
    {
        match self {
            Direction::North => String::from_str("North"),
            Direction::South => String::from_str("South"),
            Direction::In => String::from_str("In"),
            Direction::Out => String::from_str("Out"),
            Direction::Center => String::from_str("Center"),
        }
    }
}

/// Numeric position of a finger in the thumb-to-pinky order.
pub open spec fn finger_index(f: Finger) -> int {
    match f {
        Finger::Thumb => 0,
        Finger::Index => 1,
        Finger::Middle => 2,
        Finger::Ring => 3,
        Finger::Pinky => 4,
    }
}

/// Distance between two fingers of one hand in the thumb-to-pinky order.
pub open spec fn finger_distance(a: Finger, b: Finger) -> int {
    if finger_index(a) >= finger_index(b) {
        finger_index(a) - finger_index(b)
    } else {
        finger_index(b) - finger_index(a)
    }
}

impl Finger {
    /// Numeric position of the finger in the thumb-to-pinky order.
    pub fn numeric_index(&self) -> (r: u8)
        ensures
            r == finger_index(*self),
    {
        match self {
            Finger::Thumb => 0,
            Finger::Index => 1,
            Finger::Middle => 2,
            Finger::Ring => 3,
            Finger::Pinky => 4,
        }
    }

    /// How many fingers apart two fingers of one hand are.
    pub fn distance(&self, other: &Finger) -> (r: u8)
        ensures
            r == finger_distance(*self, *other),
    {
        let a = self.numeric_index();
        let b = other.numeric_index();
        if a >= b {
            a - b
        } else {
            b - a
        }
    }
}

/// The layout data of one physical key: where it sits and how it is struck.
///
/// `cost` is the intrinsic effort of reaching the key, in fixed-point
/// millionths (see [`crate::fixed`]).
#[derive(Clone, Copy, Debug, PartialEq, Eq, Structural)]
pub struct KeyDescriptor {
    pub hand: Hand,
    pub finger: Finger,
    pub direction: Direction,
    /// Matrix column of the key.
    pub column: u8,
    /// Matrix row of the key.
    pub row: u8,
    /// Intrinsic cost of the key position, in fixed-point millionths.
    pub cost: u64,
}

/// A key reference as it occurs in an n-gram: the physical key, the symbol it
/// produces, and whether it acts as a modifier. Two layer keys are the same
/// keystroke exactly when all three agree.
#[derive(Clone, Copy, Debug, PartialEq, Eq, Structural)]
pub struct LayerKey {
    pub key: KeyDescriptor,
    pub symbol: char,
    pub is_modifier: bool,
}

} // verus!
