//! The notes of the chromatic scale.

use std::cmp::Ordering;
use vstd::prelude::*;
use vstd::std_specs::cmp::PartialEqSpecImpl;
use vstd::std_specs::cmp::PartialOrdSpecImpl;

verus! {

/// A spelled note of the chromatic scale. Several spellings name the same
/// pitch class (`Cs` and `Db`, `Bs` and `C`), and notes are compared by the
/// pitch class, never by the spelling.
#[derive(Debug, Clone, Copy, Eq)]
pub enum Note {
    A,
    As,
    Bb,
    B,
    Bs,
    Cb,
    C,
    Cs,
    Db,
    D,
    Ds,
    Eb,
    E,
    Es,
    Fb,
    F,
    Fs,
    Gb,
    G,
    Gs,
    Ab,
}

impl PartialEq for Note {
    fn eq(&self, other: &Self) -> (equal: bool) {
        self.to_usize() == other.to_usize()
    }
}

impl PartialEqSpecImpl for Note {
    open spec fn obeys_eq_spec() -> bool {
        true
    }

    open spec fn eq_spec(&self, other: &Self) -> bool {
        self.value() == other.value()
    }
}

impl PartialOrd for Note {
    fn partial_cmp(&self, other: &Self) -> (order: Option<Ordering>) {
        let value: usize = self.to_usize();
        let other_value: usize = other.to_usize();
        if value < other_value {
            Some(Ordering::Less)
        } else if value > other_value {
            Some(Ordering::Greater)
        } else {
            Some(Ordering::Equal)
        }
    }
}

impl PartialOrdSpecImpl for Note {
    open spec fn obeys_partial_cmp_spec() -> bool {
        true
    }

    open spec fn partial_cmp_spec(&self, other: &Self) -> Option<Ordering> {
        if self.value() < other.value() {
            Some(Ordering::Less)
        } else if self.value() > other.value() {
            Some(Ordering::Greater)
        } else {
            Some(Ordering::Equal)
        }
    }
}

/// Semitone distances of the seven degrees of a major scale from its tonic.
pub open spec fn major_offsets() -> Seq<nat> {
    seq![0, 2, 4, 5, 7, 9, 11]
}

/// Semitone distances of the seven degrees of a minor scale from its tonic.
pub open spec fn minor_offsets() -> Seq<nat> {
    seq![0, 2, 3, 5, 7, 8, 11]
}

/// The pitch classes reached from `tonic` by each of `offsets`.
pub open spec fn transposed(offsets: Seq<nat>, tonic: nat) -> Seq<nat> {
    Seq::new(offsets.len(), |i: int| (offsets[i] + tonic) % 12)
}

impl Note {
    /// The pitch class of the note: its distance from C in semitones.
    pub open spec fn value(self) -> nat {
        match self {
            Note::C | Note::Bs => 0,
            Note::Cs | Note::Db => 1,
            Note::D => 2,
            Note::Ds | Note::Eb => 3,
            Note::E | Note::Fb => 4,
            Note::Es | Note::F => 5,
            Note::Fs | Note::Gb => 6,
            Note::G => 7,
            Note::Gs | Note::Ab => 8,
            Note::A => 9,
            Note::As | Note::Bb => 10,
            Note::B | Note::Cb => 11,
        }
    }

    /// The note that stands for the pitch class of `value`, which is taken
    /// modulo 12.
    pub open spec fn from_value(value: int) -> Note {
        let class = value % 12;
        if class == 0 {
            Note::C
        } else if class == 1 {
            Note::Cs
        } else if class == 2 {
            Note::D
        } else if class == 3 {
            Note::Eb
        } else if class == 4 {
            Note::E
        } else if class == 5 {
            Note::F
        } else if class == 6 {
            Note::Fs
        } else if class == 7 {
            Note::G
        } else if class == 8 {
            Note::Ab
        } else if class == 9 {
            Note::A
        } else if class == 10 {
            Note::Bb
        } else {
            Note::B
        }
    }

    /// The pitch classes of the major scale built on this note.
    pub open spec fn major_scale(self) -> Seq<nat> {
        transposed(major_offsets(), self.value())
    }

    /// The pitch classes of the minor scale built on this note.
    pub open spec fn minor_scale(self) -> Seq<nat> {
        transposed(minor_offsets(), self.value())
    }

    /// The written form of the note.
    pub open spec fn label(self) -> Seq<char> {
        match self {
            Note::C => "C"@,
            Note::Cs => "C#"@,
            Note::Db => "D♭"@,
            Note::D => "D"@,
            Note::Ds => "D#"@,
            Note::Eb => "E♭"@,
            Note::E => "E"@,
            Note::Fb => "F♭"@,
            Note::Es => "E#"@,
            Note::F => "F"@,
            Note::Fs => "F#"@,
            Note::Gb => "G♭"@,
            Note::G => "G"@,
            Note::Gs => "G#"@,
            Note::Ab => "A♭"@,
            Note::A => "A"@,
            Note::As => "A#"@,
            Note::Bb => "B♭"@,
            Note::B => "B"@,
            Note::Cb => "C♭"@,
            Note::Bs => "B#"@,
        }
    }

    /// Converts the note to its pitch class, between 0 and 11.
    pub fn to_usize(&self) -> (value: usize)
        ensures
            value == self.value(),
            value < 12,
    {
        match self {
            Note::C => 0,
            Note::Cs => 1,
            Note::Db => 1,
            Note::D => 2,
            Note::Ds => 3,
            Note::Eb => 3,
            Note::E => 4,
            Note::Fb => 4,
            Note::Es => 5,
            Note::F => 5,
            Note::Fs => 6,
            Note::Gb => 6,
            Note::G => 7,
            Note::Gs => 8,
            Note::Ab => 8,
            Note::A => 9,
            Note::As => 10,
            Note::Bb => 10,
            Note::B => 11,
            Note::Cb => 11,
            Note::Bs => 0,
        }
    }

    /// Converts an integer to the note of its pitch class. Never fails: the
    /// integer is reduced modulo 12 first.
    pub fn from_usize(num: usize) -> (note: Self)
        ensures
            note == Note::from_value(num as int),
            note.value() == num % 12,
    {
        let num_remainder: usize = num % 12;
        if num_remainder == 0 {
            Note::C
        } else if num_remainder == 1 {
            Note::Cs
        } else if num_remainder == 2 {
            Note::D
        } else if num_remainder == 3 {
            Note::Eb
        } else if num_remainder == 4 {
            Note::E
        } else if num_remainder == 5 {
            Note::F
        } else if num_remainder == 6 {
            Note::Fs
        } else if num_remainder == 7 {
            Note::G
        } else if num_remainder == 8 {
            Note::Ab
        } else if num_remainder == 9 {
            Note::A
        } else if num_remainder == 10 {
            Note::Bb
        } else {
            Note::B
        }
    }

    /// The pitch classes reached from this note by each of `offsets`.
    fn scale_from_tonic(&self, offsets: Vec<usize>) -> (scale: Vec<usize>)
        requires
            forall|i: int| 0 <= i < offsets.len() ==> offsets[i] < 12,
        ensures
            scale.len() == offsets.len(),
            forall|i: int|
                0 <= i < scale.len() ==> scale[i] == (offsets[i] + self.value()) % 12,
    {
        let tonic: usize = self.to_usize();
        let mut scale: Vec<usize> = Vec::with_capacity(offsets.len());
        let mut i: usize = 0;
        while i < offsets.len()
            invariant
                i <= offsets.len(),
                tonic == self.value(),
                tonic < 12,
                forall|k: int| 0 <= k < offsets.len() ==> offsets[k] < 12,
                scale.len() == i,
                forall|k: int| 0 <= k < i ==> scale[k] == (offsets[k] + tonic) % 12,
            decreases offsets.len() - i,
        {
            scale.push((offsets[i] + tonic) % 12);
            i += 1;
        }
        scale
    }

    /// Gives the major scale whose tonic is the current note.
    pub fn major_scale_from_tonic(&self) -> (scale: Vec<usize>)
        ensures
            scale.len() == 7,
            forall|i: int| 0 <= i < 7 ==> scale[i] == self.major_scale()[i],
    {
        self.scale_from_tonic(vec![0, 2, 4, 5, 7, 9, 11])
    }

    /// Gives the minor scale whose tonic is the current note.
    pub fn minor_scale_from_tonic(&self) -> (scale: Vec<usize>)
        ensures
            scale.len() == 7,
            forall|i: int| 0 <= i < 7 ==> scale[i] == self.minor_scale()[i],
    {
        self.scale_from_tonic(vec![0, 2, 3, 5, 7, 8, 11])
    }

    /// Tests whether the pitch class of the note occurs in `scale`.
    pub fn test_is_in_scale(&self, scale: Vec<usize>) -> (found: bool)
        ensures
            found <==> exists|i: int| 0 <= i < scale.len() && scale[i] == self.value(),
    {
        let value: usize = self.to_usize();
        let mut i: usize = 0;
        while i < scale.len()
            invariant
                i <= scale.len(),
                value == self.value(),
                forall|k: int| 0 <= k < i ==> scale[k] != value,
            decreases scale.len() - i,
        {
            if scale[i] == value {
                return true;
            }
            i += 1;
        }
        false
    }

    /// Tests whether or not the note is in the major scale of `tonic`.
    pub fn is_in_major_scale(&self, tonic: Note) -> (inside: bool)
        ensures
            inside <==> tonic.major_scale().contains(self.value()),
    {
        self.test_is_in_scale(tonic.major_scale_from_tonic())
    }

    /// Tests whether or not the note is in the minor scale of `tonic`.
    pub fn is_in_minor_scale(&self, tonic: Note) -> (inside: bool)
        ensures
            inside <==> tonic.minor_scale().contains(self.value()),
    {
        self.test_is_in_scale(tonic.minor_scale_from_tonic())
    }

    /// Renders the note as text.
    pub fn display(&self) -> (text: String)
        ensures
            text@ == self.label(),
    {
        match self {
            Note::C => "C".to_owned(),
            Note::Cs => "C#".to_owned(),
            Note::Db => "D♭".to_owned(),
            Note::D => "D".to_owned(),
            Note::Ds => "D#".to_owned(),
            Note::Eb => "E♭".to_owned(),
            Note::E => "E".to_owned(),
            Note::Fb => "F♭".to_owned(),
            Note::Es => "E#".to_owned(),
            Note::F => "F".to_owned(),
            Note::Fs => "F#".to_owned(),
            Note::Gb => "G♭".to_owned(),
            Note::G => "G".to_owned(),
            Note::Gs => "G#".to_owned(),
            Note::Ab => "A♭".to_owned(),
            Note::A => "A".to_owned(),
            Note::As => "A#".to_owned(),
            Note::Bb => "B♭".to_owned(),
            Note::B => "B".to_owned(),
            Note::Cb => "C♭".to_owned(),
            Note::Bs => "B#".to_owned(),
        }
    }

    /// A note made from an integer has that integer's pitch class.
    pub proof fn lemma_from_value_value(value: int)
        ensures
            Note::from_value(value).value() == value % 12,
    {
    }

    /// Integers that are twelve apart make the same note.
    pub proof fn lemma_from_value_periodic(value: int)
        ensures
            Note::from_value(value) == Note::from_value(value + 12),
    {
    }

    /// Adding whole octaves to an integer does not change the note it makes.
    pub proof fn lemma_from_value_periodic_multiple(value: int, octaves: int)
        ensures
            Note::from_value(value) == Note::from_value(value + 12 * octaves),
    {
        assert((value + 12 * octaves) % 12 == value % 12) by (nonlinear_arith);
    }

    /// Going to the pitch class and back changes at most the spelling.
    pub proof fn lemma_value_round_trip(self)
        ensures
            Note::from_value(self.value() as int).value() == self.value(),
            self.value() < 12,
    {
    }
}

} // verus!
