//! Notes and sounds by their names, as they are written on the keys of a
//! piano.

use vstd::prelude::*;

verus! {

/// A note by the piano convention: a name and the integer that stands for
/// it.
#[derive(Debug)]
pub struct Note<'a> {
    name: &'a str,
    repr: u8,
}

impl<'a> Note<'a> {
    pub closed spec fn spec_name(&self) -> &'a str {
        self.name
    }

    pub closed spec fn spec_repr(&self) -> &u8 {
        &self.repr
    }

    /// Creates the note of a name and its integer.
    pub fn init(name: &'a str, repr: u8) -> (note: Self)
        ensures
            note.name() == name,
            *note.repr() == repr,
    {
        Self { name, repr }
    }

    /// Gives the name of the note.
    #[verifier::when_used_as_spec(spec_name)]
    pub fn name(&self) -> (name: &'a str)
        ensures
            name == self.spec_name(),
    {
        self.name
    }

    /// Gives the integer that stands for the note.
    #[verifier::when_used_as_spec(spec_repr)]
    pub fn repr(&self) -> (repr: &u8)
        ensures
            repr == self.spec_repr(),
    {
        &self.repr
    }
}

/// A sound by the piano convention: a note and its octave.
#[derive(Debug)]
pub struct Sound<'a> {
    note: Note<'a>,
    octave: u8,
}

impl<'a> Sound<'a> {
    pub closed spec fn spec_note(&self) -> &Note<'a> {
        &self.note
    }

    pub closed spec fn spec_octave(&self) -> &u8 {
        &self.octave
    }

    /// Creates the sound of a note in an octave.
    pub fn init(note: Note<'a>, octave: u8) -> (sound: Self)
        ensures
            *sound.note() == note,
            *sound.octave() == octave,
    {
        Self { note, octave }
    }

    /// Gives the note of the sound.
    #[verifier::when_used_as_spec(spec_note)]
    pub fn note(&self) -> (note: &Note<'a>)
        ensures
            note == self.spec_note(),
    {
        &self.note
    }

    /// Gives the octave of the sound.
    #[verifier::when_used_as_spec(spec_octave)]
    pub fn octave(&self) -> (octave: &u8)
        ensures
            octave == self.spec_octave(),
    {
        &self.octave
    }
}

} // verus!
