//! The die itself: the table of bounds that each kind starts with, the record
//! of one die, and the operations that roll and mark it.

use crate::ambient::{fresh_id, is_uuid_text, now, pick_between};
use crate::laws::{face_can_show, roll_error_means_no_face};
use vstd::prelude::*;

verus! {

/// The kinds of die. Every kind but `Other` has fixed starting bounds; an
/// `Other` die starts at `(0, 0)` and is meant to be given bounds or sides.
#[derive(Copy, Clone, Debug, PartialEq, Eq, Structural)]
pub enum DieType {
    D4,
    D6,
    D8,
    D10,
    D12,
    D20,
    D100,
    Fate,
    Other,
}

/// The lowest face that a die of the given kind starts with.
pub open spec fn die_min(kind: DieType) -> int {
    match kind {
        DieType::D4 => 1,
        DieType::D6 => 1,
        DieType::D8 => 1,
        DieType::D10 => 1,
        DieType::D12 => 1,
        DieType::D20 => 1,
        DieType::D100 => 1,
        DieType::Fate => -1,
        DieType::Other => 0,
    }
}

/// The highest face that a die of the given kind starts with.
pub open spec fn die_max(kind: DieType) -> int {
    match kind {
        DieType::D4 => 4,
        DieType::D6 => 6,
        DieType::D8 => 8,
        DieType::D10 => 10,
        DieType::D12 => 12,
        DieType::D20 => 20,
        DieType::D100 => 100,
        DieType::Fate => 1,
        DieType::Other => 0,
    }
}

/// Determine the minimum number to roll based on the die type.
pub fn get_die_min(die: &DieType) -> (min: i16)
    ensures
        min == die_min(*die),
{
    match die {
        DieType::D4 => 1,
        DieType::D6 => 1,
        DieType::D8 => 1,
        DieType::D10 => 1,
        DieType::D12 => 1,
        DieType::D20 => 1,
        DieType::D100 => 1,
        DieType::Fate => -1,
        DieType::Other => 0,
    }
}

/// Determine the maximum number to roll based on the die type.
pub fn get_die_max(die: &DieType) -> (max: i16)
    ensures
        max == die_max(*die),
{
    match die {
        DieType::D4 => 4,
        DieType::D6 => 6,
        DieType::D8 => 8,
        DieType::D10 => 10,
        DieType::D12 => 12,
        DieType::D20 => 20,
        DieType::D100 => 100,
        DieType::Fate => 1,
        DieType::Other => 0,
    }
}

/// Why a die could not be rolled.
#[derive(Copy, Clone, Debug, PartialEq, Eq, Structural)]
pub enum RollError {
    /// The die has custom sides, and the list of them is empty.
    InvalidConfiguration,
    /// The die has no custom sides, and its minimum is above its maximum.
    InvalidRange,
}

/// One die and what has happened to it.
#[derive(Debug)]
pub struct Die {
    /// Unique identifier of the die
    pub id: String,
    /// The identifier of the die that was rolled because this one exploded or
    /// was re-rolled
    pub child: Option<String>,
    /// The type of die (e.g. d20, d100)
    pub die: DieType,
    /// If the die is dropped in the final roll
    pub is_dropped: bool,
    /// If the die has been exploded
    pub is_exploded: bool,
    /// If the die has been re-rolled
    pub is_rerolled: bool,
    /// If the die is successful when we have a comparison
    pub is_successful: bool,
    /// Maximum number to roll
    pub max: i16,
    /// Minimum number to roll
    pub min: i16,
    /// Custom sides; where present, a roll picks one of them and the bounds
    /// are not used
    pub sides: Option<Vec<i16>>,
    /// When the die was made, as date and time of day in UTC
    pub timestamp: chrono::NaiveDateTime,
    /// The determined value of the dice roll; zero until the first roll
    pub value: i16,
}

/// A die as a mathematical record: texts and sides as sequences.
pub struct DieView {
    pub id: Seq<char>,
    pub child: Option<Seq<char>>,
    pub die: DieType,
    pub is_dropped: bool,
    pub is_exploded: bool,
    pub is_rerolled: bool,
    pub is_successful: bool,
    pub max: i16,
    pub min: i16,
    pub sides: Option<Seq<i16>>,
    pub timestamp: chrono::NaiveDateTime,
    pub value: i16,
}

impl DieView {
    /// A die of the given kind as it is made: bounds from the table, no roll,
    /// no marks, no child, no custom sides.
    pub open spec fn fresh(kind: DieType, id: Seq<char>, timestamp: chrono::NaiveDateTime) -> DieView {
        DieView {
            id,
            child: None,
            die: kind,
            is_dropped: false,
            is_exploded: false,
            is_rerolled: false,
            is_successful: false,
            max: die_max(kind) as i16,
            min: die_min(kind) as i16,
            sides: None,
            timestamp,
            value: 0,
        }
    }

    /// The die marked as dropped.
    pub open spec fn dropped(self) -> DieView {
        DieView { is_dropped: true, ..self }
    }

    /// The die marked as successful.
    pub open spec fn succeeded(self) -> DieView {
        DieView { is_successful: true, ..self }
    }

    /// The die marked as exploded, with `child` as its child.
    pub open spec fn exploded_into(self, child: Seq<char>) -> DieView {
        DieView { is_exploded: true, child: Some(child), ..self }
    }

    /// The die marked as re-rolled, with `child` as its child.
    pub open spec fn rerolled_into(self, child: Seq<char>) -> DieView {
        DieView { is_rerolled: true, child: Some(child), ..self }
    }

    /// The die with its minimum replaced.
    pub open spec fn with_min(self, min: i16) -> DieView {
        DieView { min, ..self }
    }

    /// The die with its maximum replaced.
    pub open spec fn with_max(self, max: i16) -> DieView {
        DieView { max, ..self }
    }

    /// Whether a roll of this die can show `v`: one of the custom sides where
    /// there are any, else a number from the minimum to the maximum, both
    /// included.
    pub open spec fn can_show(self, v: i16) -> bool {
        match self.sides {
            Some(sides) => sides.contains(v),
            None => self.min <= v <= self.max,
        }
    }

    /// How many faces a roll chooses from, counting a custom side once for
    /// each time it is listed. Zero where the die cannot be rolled.
    pub open spec fn face_count(self) -> nat {
        match self.sides {
            Some(sides) => sides.len(),
            None => if self.min <= self.max {
                (self.max - self.min + 1) as nat
            } else {
                0
            },
        }
    }

    /// The face at position `k`, for `k` below `face_count()`: custom sides in
    /// their order, else the numbers upwards from the minimum.
    pub open spec fn face(self, k: int) -> i16 {
        match self.sides {
            Some(sides) => sides[k],
            None => (self.min + k) as i16,
        }
    }

    /// Why the die cannot be rolled, if it cannot: custom sides that are an
    /// empty list, or, without custom sides, a minimum above the maximum.
    pub open spec fn roll_error(self) -> Option<RollError> {
        match self.sides {
            Some(sides) => if sides.len() == 0 {
                Some(RollError::InvalidConfiguration)
            } else {
                None
            },
            None => if self.min > self.max {
                Some(RollError::InvalidRange)
            } else {
                None
            },
        }
    }

    /// The die after a roll that showed `v`. Every roll marks the die
    /// successful, whatever it showed.
    pub open spec fn landed(self, v: i16) -> DieView {
        DieView { value: v, is_successful: true, ..self }
    }
}

impl View for Die {
    type V = DieView;

    open spec fn view(&self) -> DieView {
        DieView {
            id: self.id@,
            child: match self.child {
                Some(c) => Some(c@),
                None => None,
            },
            die: self.die,
            is_dropped: self.is_dropped,
            is_exploded: self.is_exploded,
            is_rerolled: self.is_rerolled,
            is_successful: self.is_successful,
            max: self.max,
            min: self.min,
            sides: match self.sides {
                Some(s) => Some(s@),
                None => None,
            },
            timestamp: self.timestamp,
            value: self.value,
        }
    }
}

impl Die {
    /// Makes a die of the given kind, with a new identifier and the current
    /// time. Its bounds come from the table, it has not been rolled and
    /// carries no marks.
    pub fn new(die: DieType) -> (d: Die)
        ensures
            d@ == DieView::fresh(die, d.id@, d.timestamp),
            is_uuid_text(d.id@),
    {
        Die {
            id: fresh_id(),
            child: None,
            die,
            is_dropped: false,
            is_exploded: false,
            is_rerolled: false,
            is_successful: false,
            max: get_die_max(&die),
            min: get_die_min(&die),
            sides: None,
            timestamp: now(),
            value: 0,
        }
    }

    /// The number of faces that a roll chooses from.
    pub fn face_total(&self) -> (n: usize)
        ensures
            n == self@.face_count(),
    {
        match &self.sides {
            Some(sides) => sides.len(),
            None => if self.min <= self.max {
                (self.max as i32 - self.min as i32 + 1) as usize
            } else {
                0
            },
        }
    }

    /// Turns the die to the face at position `k`: the die shows that face and
    /// is marked successful.
    pub fn show_face(&mut self, k: usize)
        requires
            k < old(self)@.face_count(),
        ensures
            final(self)@ == old(self)@.landed(old(self)@.face(k as int)),
    {
        let v: i16 = match &self.sides {
            Some(sides) => sides[k],
            None => (self.min as i32 + k as i32) as i16,
        };
        self.value = v;
        self.is_successful = true;
    }

    /// Roll the die: one of its faces is drawn at random, each position with
    /// the same chance. The die then shows that face and is marked successful.
    /// A die without faces (an empty list of sides, or a minimum above the
    /// maximum) cannot be rolled; `try_roll` tests for that.
    pub fn roll(&mut self) -> (r: &Die)
        requires
            old(self)@.face_count() > 0,
        ensures
            old(self)@.can_show(final(self).value),
            final(self)@ == old(self)@.landed(final(self).value),
            *r == *final(self),
    {
        let n = self.face_total();
        let k = pick_between(0, n);
        proof {
            face_can_show(self@, k as int);
        }
        self.show_face(k);
        self
    }

    /// Rolls the die if it has a face to show, and returns what it shows.
    /// Fails, and leaves the die as it was, with `InvalidConfiguration` where
    /// the list of custom sides is empty and with `InvalidRange` where there
    /// are no custom sides and the minimum is above the maximum.
    pub fn try_roll(&mut self) -> (r: Result<i16, RollError>)
        ensures
            match r {
                Ok(v) => {
                    &&& old(self)@.roll_error() is None
                    &&& old(self)@.can_show(v)
                    &&& final(self)@ == old(self)@.landed(v)
                },
                Err(e) => {
                    &&& old(self)@.roll_error() == Some(e)
                    &&& *final(self) == *old(self)
                },
            },
    {
        proof {
            roll_error_means_no_face(self@);
        }
        if self.face_total() == 0 {
            if self.sides.is_some() {
                Err(RollError::InvalidConfiguration)
            } else {
                Err(RollError::InvalidRange)
            }
        } else {
            self.roll();
            Ok(self.value)
        }
    }

    /// Drop the die from the final roll.
    pub fn drop(&mut self)
        ensures
            final(self)@ == old(self)@.dropped(),
    {
        self.is_dropped = true
    }

    /// Mark the die as exploded, with `die` as the die rolled for it. An
    /// earlier child is forgotten.
    pub fn exploded(&mut self, die: &Die)
        ensures
            final(self)@ == old(self)@.exploded_into(die.id@),
    {
        self.is_exploded = true;
        self.child = Some(die.id.clone());
    }

    /// Mark the die as successful in a comparison.
    pub fn success(&mut self)
        ensures
            final(self)@ == old(self)@.succeeded(),
    {
        self.is_successful = true
    }

    /// Mark the die as re-rolled, with `die` as the die rolled in its place.
    /// An earlier child is forgotten.
    pub fn rerolled(&mut self, die: &Die)
        ensures
            final(self)@ == old(self)@.rerolled_into(die.id@),
    {
        self.is_rerolled = true;
        self.child = Some(die.id.clone());
    }

    /// Replace the minimum. The value is taken as it is, whatever the kind of
    /// the die and whatever its maximum.
    pub fn set_min(&mut self, min: i16)
        ensures
            final(self)@ == old(self)@.with_min(min),
    {
        self.min = min;
    }

    /// Replace the maximum. The value is taken as it is, whatever the kind of
    /// the die and whatever its minimum.
    pub fn set_max(&mut self, max: i16)
        ensures
            final(self)@ == old(self)@.with_max(max),
    {
        self.max = max;
    }
}

} // verus!
