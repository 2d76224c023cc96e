//! Intervals between two sounds.

use crate::sound::Sound;
use std::cmp::Ordering;
use vstd::prelude::*;
use vstd::std_specs::cmp::PartialEqSpecImpl;
use vstd::std_specs::cmp::PartialOrdSpecImpl;

verus! {

/// Implements an interval between two sounds.
#[derive(Debug, Clone, Copy, Eq)]
pub struct Interval {
    sound_one: Sound,
    sound_two: Sound,
}

impl PartialEq for Interval {
    fn eq(&self, other: &Self) -> (equal: bool) {
        self.sound_one == other.sound_one && self.sound_two == other.sound_two
    }
}

impl PartialEqSpecImpl for Interval {
    open spec fn obeys_eq_spec() -> bool {
        true
    }

    open spec fn eq_spec(&self, other: &Self) -> bool {
        self.first_sound().same_key(other.first_sound()) && self.second_sound().same_key(
            other.second_sound(),
        )
    }
}

impl PartialOrd for Interval {
    fn partial_cmp(&self, other: &Self) -> (order: Option<Ordering>) {
        let length: u128 = self.wide_distance();
        let other_length: u128 = other.wide_distance();
        if length < other_length {
            Some(Ordering::Less)
        } else if length > other_length {
            Some(Ordering::Greater)
        } else {
            Some(Ordering::Equal)
        }
    }
}

impl PartialOrdSpecImpl for Interval {
    open spec fn obeys_partial_cmp_spec() -> bool {
        true
    }

    open spec fn partial_cmp_spec(&self, other: &Self) -> Option<Ordering> {
        if self.length() < other.length() {
            Some(Ordering::Less)
        } else if self.length() > other.length() {
            Some(Ordering::Greater)
        } else {
            Some(Ordering::Equal)
        }
    }
}

impl Interval {
    pub closed spec fn spec_first_sound(&self) -> Sound {
        self.sound_one
    }

    pub closed spec fn spec_second_sound(&self) -> Sound {
        self.sound_two
    }

    /// The interval from `sound_one` to `sound_two`.
    pub closed spec fn between(sound_one: Sound, sound_two: Sound) -> Interval {
        Interval { sound_one, sound_two }
    }

    /// The length of the interval in semitones, whichever of its sounds is
    /// the higher one.
    pub open spec fn length(self) -> nat {
        if self.first_sound().height() < self.second_sound().height() {
            (self.second_sound().height() - self.first_sound().height()) as nat
        } else {
            (self.first_sound().height() - self.second_sound().height()) as nat
        }
    }

    /// Creates a representation of an interval of two sounds.
    pub fn init(sound_one: Sound, sound_two: Sound) -> (interval: Self)
        ensures
            interval == Interval::between(sound_one, sound_two),
    {
        Self { sound_one, sound_two }
    }

    /// Gives the first sound of the interval.
    #[verifier::when_used_as_spec(spec_first_sound)]
    pub fn first_sound(&self) -> (sound: Sound)
        ensures
            sound == self.spec_first_sound(),
    {
        self.sound_one
    }

    /// Gives the second sound of the interval.
    #[verifier::when_used_as_spec(spec_second_sound)]
    pub fn second_sound(&self) -> (sound: Sound)
        ensures
            sound == self.spec_second_sound(),
    {
        self.sound_two
    }

    /// Tests whether or not the interval is strictly ascending (unison
    /// excluded).
    pub fn is_ascending(&self) -> (ascending: bool)
        ensures
            ascending <==> self.first_sound().height() < self.second_sound().height(),
    {
        self.sound_one < self.sound_two
    }

    /// Tests whether or not the interval is in unison: that is when the two
    /// sounds making up the interval are equal.
    pub fn is_in_unison(&self) -> (unison: bool)
        ensures
            unison <==> self.first_sound().same_key(self.second_sound()),
    {
        self.sound_one == self.sound_two
    }

    /// Computes the length of the interval in half tones.
    pub fn distance(&self) -> (distance: usize)
        requires
            self.first_sound().height() <= usize::MAX,
            self.second_sound().height() <= usize::MAX,
        ensures
            distance == self.length(),
    {
        if self.is_ascending() {
            self.sound_two.range() - self.sound_one.range()
        } else {
            self.sound_one.range() - self.sound_two.range()
        }
    }

    /// Computes the length of the interval in half tones, in a type wide
    /// enough for the length of every interval.
    pub fn wide_distance(&self) -> (distance: u128)
        ensures
            distance == self.length(),
    {
        let low: u128 = self.sound_one.wide_range();
        let high: u128 = self.sound_two.wide_range();
        if low < high {
            high - low
        } else {
            low - high
        }
    }

    /// An interval made of two sounds has those sounds.
    pub broadcast proof fn lemma_between_parts(sound_one: Sound, sound_two: Sound)
        ensures
            (#[trigger] Interval::between(sound_one, sound_two)).first_sound() == sound_one,
            Interval::between(sound_one, sound_two).second_sound() == sound_two,
    {
    }
}

} // verus!
