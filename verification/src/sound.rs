//! Sounds: notes in their octaves, ordered by height.

use crate::note::Note;
use std::cmp::Ordering;
use vstd::prelude::*;
use vstd::std_specs::cmp::PartialEqSpecImpl;
use vstd::std_specs::cmp::PartialOrdSpecImpl;

verus! {

/// The error of making a sound in octave 0: octaves are counted from 1.
#[derive(Debug, Clone, Copy, PartialEq, Eq, Structural)]
pub struct InvalidOctave;

/// A piano key: a note in an octave. Octaves are counted from 1.
#[derive(Debug, Clone, Copy, Eq)]
pub struct Sound {
    note: Note,
    octave: usize,
}

impl PartialEq for Sound {
    fn eq(&self, other: &Self) -> (equal: bool) {
        self.note == other.note && self.octave == other.octave
    }
}

impl PartialEqSpecImpl for Sound {
    open spec fn obeys_eq_spec() -> bool {
        true
    }

    open spec fn eq_spec(&self, other: &Self) -> bool {
        self.same_key(*other)
    }
}

impl PartialOrd for Sound {
    fn partial_cmp(&self, other: &Self) -> (order: Option<Ordering>) {
        let note: usize = self.note.to_usize();
        let other_note: usize = other.note.to_usize();
        if self.octave < other.octave {
            Some(Ordering::Less)
        } else if self.octave > other.octave {
            Some(Ordering::Greater)
        } else if note < other_note {
            Some(Ordering::Less)
        } else if note > other_note {
            Some(Ordering::Greater)
        } else {
            Some(Ordering::Equal)
        }
    }
}

impl PartialOrdSpecImpl for Sound {
    open spec fn obeys_partial_cmp_spec() -> bool {
        true
    }

    open spec fn partial_cmp_spec(&self, other: &Self) -> Option<Ordering> {
        if self.height() < other.height() {
            Some(Ordering::Less)
        } else if self.height() > other.height() {
            Some(Ordering::Greater)
        } else {
            Some(Ordering::Equal)
        }
    }
}

impl Sound {
    /// Every sound lies in octave 1 or above.
    #[verifier::type_invariant]
    pub closed spec fn wf(self) -> bool {
        self.octave >= 1
    }

    pub closed spec fn spec_note(&self) -> Note {
        self.note
    }

    pub closed spec fn spec_octave(&self) -> usize {
        self.octave
    }

    /// The sound of `note` in `octave`.
    pub closed spec fn key(note: Note, octave: usize) -> Sound {
        Sound { note, octave }
    }

    /// The absolute height of the sound: its distance in semitones from the
    /// lowest C, which is the C of octave 1.
    pub open spec fn height(self) -> int {
        (self.octave() - 1) * 12 + self.note().value()
    }

    /// Two sounds are the same key when they agree in octave and in pitch
    /// class, whatever the spelling of their notes.
    pub open spec fn same_key(self, other: Sound) -> bool {
        self.note().value() == other.note().value() && self.octave() == other.octave()
    }

    /// The sound at absolute height `height`, its note spelled as
    /// `Note::from_value` spells it.
    pub open spec fn at_height(height: int) -> Sound
        recommends
            0 <= height <= usize::MAX,
    {
        Sound::key(Note::from_value(height), (height / 12 + 1) as usize)
    }

    /// Creates the sound of a piano key. The octave must not be 0.
    pub fn init(note: Note, octave: usize) -> (sound: Sound)
        requires
            octave > 0,
        ensures
            sound == Sound::key(note, octave),
            sound.note() == note,
            sound.octave() == octave,
    {
        Self { note, octave }
    }

    /// Creates the sound of a piano key, unless the octave is 0.
    pub fn try_init(note: Note, octave: usize) -> (made: Result<Sound, InvalidOctave>)
        ensures
            octave > 0 ==> made == Ok::<Sound, InvalidOctave>(Sound::key(note, octave)),
            octave == 0 ==> made == Err::<Sound, InvalidOctave>(InvalidOctave),
    {
        if octave > 0 {
            Ok(Self { note, octave })
        } else {
            Err(InvalidOctave)
        }
    }

    /// Gives the note of the sound.
    #[verifier::when_used_as_spec(spec_note)]
    pub fn note(&self) -> (note: Note)
        ensures
            note == self.spec_note(),
    {
        self.note
    }

    /// Gives the octave of the sound.
    #[verifier::when_used_as_spec(spec_octave)]
    pub fn octave(&self) -> (octave: usize)
        ensures
            octave == self.spec_octave(),
            octave >= 1,
    {
        proof {
            use_type_invariant(self);
        }
        self.octave
    }

    /// Gives the absolute height of the sound, 0 being the lowest C.
    pub fn range(&self) -> (range: usize)
        requires
            self.height() <= usize::MAX,
        ensures
            range == self.height(),
    {
        proof {
            use_type_invariant(self);
        }
        (self.octave - 1) * 12 + self.note.to_usize()
    }

    /// Gives the absolute height of the sound in a type wide enough for the
    /// height of every sound.
    pub fn wide_range(&self) -> (range: u128)
        ensures
            range == self.height(),
    {
        proof {
            use_type_invariant(self);
        }
        let octave: u128 = self.octave as u128;
        let note: u128 = self.note.to_usize() as u128;
        (octave - 1) * 12 + note
    }

    /// Returns the sound that has the given absolute height.
    pub fn from_range(range: usize) -> (sound: Self)
        ensures
            sound == Sound::at_height(range as int),
            sound.height() == range,
    {
        let octave: usize = (range / 12) + 1;
        let note = Note::from_usize(range % 12);
        proof {
            Note::lemma_from_value_periodic_multiple((range % 12) as int, (range / 12) as int);
        }
        Self { note, octave }
    }

    /// A sound made of a note and an octave has that note and that octave.
    pub broadcast proof fn lemma_key_parts(note: Note, octave: usize)
        ensures
            (#[trigger] Sound::key(note, octave)).note() == note,
            Sound::key(note, octave).octave() == octave,
            Sound::key(note, octave).wf() <==> octave >= 1,
    {
    }

    /// Raising a sound by one octave raises its height by exactly twelve
    /// semitones.
    pub proof fn lemma_octave_raises_height(low: Sound, high: Sound)
        requires
            high.note().value() == low.note().value(),
            high.octave() == low.octave() + 1,
        ensures
            high.height() == low.height() + 12,
    {
    }

    /// Two sounds are the same key exactly when they have the same height.
    pub proof fn lemma_same_key_same_height(self, other: Sound)
        ensures
            self.same_key(other) <==> self.height() == other.height(),
    {
        self.note().lemma_value_round_trip();
        other.note().lemma_value_round_trip();
    }

    /// Heights order sounds by octave first, then by pitch class.
    pub proof fn lemma_height_order(self, other: Sound)
        ensures
            self.height() < other.height() <==> self.octave() < other.octave() || (self.octave()
                == other.octave() && self.note().value() < other.note().value()),
    {
        self.note().lemma_value_round_trip();
        other.note().lemma_value_round_trip();
    }

    /// The sound at a height has that height.
    pub proof fn lemma_at_height(height: int)
        requires
            0 <= height <= usize::MAX,
        ensures
            Sound::at_height(height).height() == height,
            Sound::at_height(height).wf(),
    {
        Note::lemma_from_value_value(height);
    }
}

} // verus!
