//! Major and minor scales, and their sounds in an octave.

use crate::chord::ascending;
use crate::note::{major_offsets, minor_offsets, transposed, Note};
use crate::sound::Sound;
use vstd::prelude::*;

verus! {

/// The mode of a scale.
#[derive(Debug, Clone, Copy)]
pub enum ScaleType {
    Major,
    Minor,
}

impl ScaleType {
    /// Semitone distances of the seven degrees of the mode from the tonic.
    pub open spec fn offsets(self) -> Seq<nat> {
        match self {
            ScaleType::Major => major_offsets(),
            ScaleType::Minor => minor_offsets(),
        }
    }
}

/// A scale: a tonic and a mode.
#[derive(Debug, Clone, Copy)]
pub struct Scale {
    note: Note,
    scale_type: ScaleType,
}

impl Default for Scale {
    fn default() -> (scale: Self)
        ensures
            scale == Scale::of(Note::C, ScaleType::Major),
    {
        Self { note: Note::C, scale_type: ScaleType::Major }
    }
}

impl Scale {
    /// The scale of the given mode on `note`.
    pub closed spec fn of(note: Note, scale_type: ScaleType) -> Scale {
        Scale { note, scale_type }
    }

    /// The tonic of the scale.
    pub closed spec fn tonic(self) -> Note {
        self.note
    }

    /// The mode of the scale.
    pub closed spec fn mode(self) -> ScaleType {
        self.scale_type
    }

    /// The pitch classes of the seven degrees, the tonic first.
    pub open spec fn degree_values(self) -> Seq<nat> {
        transposed(self.mode().offsets(), self.tonic().value())
    }

    /// The notes of the seven degrees, the tonic first.
    pub open spec fn degrees(self) -> Seq<Note> {
        Seq::new(7, |i: int| Note::from_value(self.degree_values()[i] as int))
    }

    /// The sound of `note` that lies at `tonic` or within the octave above
    /// it: in the octave of `tonic`, unless it would then be lower than
    /// `tonic`, in which case it is in the next octave.
    pub open spec fn realized(tonic: Sound, note: Note) -> Sound {
        if Sound::key(note, tonic.octave()).height() < tonic.height() {
            Sound::key(note, (tonic.octave() + 1) as usize)
        } else {
            Sound::key(note, tonic.octave())
        }
    }

    /// The sounds of the seven degrees from the tonic of `octave` upward.
    pub open spec fn octave_sounds(self, octave: usize) -> Seq<Sound> {
        Seq::new(
            7,
            |i: int| Scale::realized(Sound::key(self.tonic(), octave), self.degrees()[i]),
        )
    }

    /// The sounds of the scale from the tonic of `octave` upward can be made:
    /// the octave is not 0, and where a degree lies in the next octave, that
    /// octave has a number.
    pub open spec fn fits(self, octave: usize) -> bool {
        &&& octave > 0
        &&& self.tonic().value() > 0 ==> octave < usize::MAX
    }

    /// Creates the scale of the given mode on `note`.
    pub fn init(note: Note, scale_type: ScaleType) -> (scale: Self)
        ensures
            scale == Scale::of(note, scale_type),
    {
        Self { note, scale_type }
    }

    /// Gives the pitch classes of the seven degrees of the scale.
    pub fn usize_notes(&self) -> (values: Vec<usize>)
        ensures
            values.len() == 7,
            forall|i: int| 0 <= i < 7 ==> values[i] == self.degree_values()[i],
    {
        match self.scale_type {
            ScaleType::Major => self.note.major_scale_from_tonic(),
            ScaleType::Minor => self.note.minor_scale_from_tonic(),
        }
    }

    /// Gives the notes of the seven degrees of the scale.
    pub fn notes(&self) -> (notes: Vec<Note>)
        ensures
            notes@ == self.degrees(),
    {
        let values = self.usize_notes();
        let mut notes: Vec<Note> = Vec::with_capacity(7);
        let mut i: usize = 0;
        while i < 7
            invariant
                i <= 7,
                values.len() == 7,
                forall|k: int| 0 <= k < 7 ==> values[k] == self.degree_values()[k],
                notes.len() == i,
                forall|k: int| 0 <= k < i ==> notes[k] == self.degrees()[k],
            decreases 7 - i,
        {
            notes.push(Note::from_usize(values[i]));
            i += 1;
        }
        assert(notes@ =~= self.degrees());
        notes
    }

    /// Gives the sound of `current_note` that lies at `tonic` or within the
    /// octave above it.
    pub fn get_sound(tonic: Sound, current_note: Note) -> (sound: Sound)
        requires
            Sound::key(current_note, tonic.octave()).height() < tonic.height() ==> tonic.octave()
                < usize::MAX,
        ensures
            sound == Scale::realized(tonic, current_note),
    {
        broadcast use Sound::lemma_key_parts;

        let mut current_sound = Sound::init(current_note, tonic.octave());
        if tonic > current_sound {
            current_sound = Sound::init(current_note, tonic.octave() + 1);
        }
        current_sound
    }

    /// Gives the sounds of the seven degrees of the scale from the tonic of
    /// `octave` upward.
    pub fn sounds(&self, octave: usize) -> (sounds: Vec<Sound>)
        requires
            self.fits(octave),
        ensures
            sounds@ == self.octave_sounds(octave),
    {
        broadcast use Sound::lemma_key_parts;

        let notes = self.notes();
        let tonic = Sound::init(self.note, octave);
        let mut sounds: Vec<Sound> = Vec::with_capacity(7);
        let mut i: usize = 0;
        while i < 7
            invariant
                i <= 7,
                notes@ == self.degrees(),
                tonic == Sound::key(self.tonic(), octave),
                tonic.octave() == octave,
                tonic.note() == self.tonic(),
                self.fits(octave),
                sounds.len() == i,
                forall|k: int| 0 <= k < i ==> sounds[k] == self.octave_sounds(octave)[k],
            decreases 7 - i,
        {
            proof {
                Sound::lemma_key_parts(notes[i as int], octave);
            }
            sounds.push(Self::get_sound(tonic, notes[i]));
            i += 1;
        }
        assert(sounds@ =~= self.octave_sounds(octave));
        sounds
    }

    /// The scale made of a tonic and a mode has that tonic and that mode.
    pub broadcast proof fn lemma_of_parts(note: Note, scale_type: ScaleType)
        ensures
            (#[trigger] Scale::of(note, scale_type)).tonic() == note,
            Scale::of(note, scale_type).mode() == scale_type,
    {
    }

    /// A mode has seven degrees, which rise from the tonic and stay within
    /// the octave above it.
    pub proof fn lemma_offsets(scale_type: ScaleType)
        ensures
            scale_type.offsets().len() == 7,
            scale_type.offsets()[0] == 0,
            scale_type.offsets()[6] == 11,
            forall|i: int, j: int|
                0 <= i < j < 7 ==> scale_type.offsets()[i] < scale_type.offsets()[j],
    {
    }

    /// Each degree sounds as many semitones above the tonic as the mode says.
    pub proof fn lemma_octave_sound_height(self, octave: usize, i: int)
        requires
            self.fits(octave),
            0 <= i < 7,
        ensures
            self.octave_sounds(octave)[i].height() == Sound::key(self.tonic(), octave).height()
                + self.mode().offsets()[i],
            self.octave_sounds(octave)[i].note() == self.degrees()[i],
            self.octave_sounds(octave)[i].wf(),
    {
        broadcast use Sound::lemma_key_parts;

        Scale::lemma_offsets(self.mode());
        self.tonic().lemma_value_round_trip();
        let tonic = self.tonic().value() as int;
        let offset = self.mode().offsets()[i] as int;
        let value = self.degree_values()[i] as int;
        let note = self.degrees()[i];
        assert(0 <= offset <= 11);
        assert(value == (offset + tonic) % 12);
        Note::lemma_from_value_value(value);
        assert(note.value() == value);
        let below = Sound::key(self.tonic(), octave);
        let same = Sound::key(note, octave);
        assert(below.height() == (octave - 1) * 12 + tonic);
        assert(same.height() == (octave - 1) * 12 + value);
        if offset + tonic < 12 {
            assert(value == offset + tonic);
            assert(Scale::realized(below, note) == same);
        } else {
            let next = Sound::key(note, (octave + 1) as usize);
            assert(value == offset + tonic - 12);
            assert(tonic > 0);
            assert(next.height() == octave * 12 + value);
            assert(Scale::realized(below, note) == next);
        }
    }

    /// The seven sounds of a scale in an octave never descend, and the first
    /// of them is the tonic of that octave.
    pub proof fn lemma_octave_sounds_ascend(self, octave: usize)
        requires
            self.fits(octave),
        ensures
            self.octave_sounds(octave).len() == 7,
            ascending(self.octave_sounds(octave)),
            self.octave_sounds(octave)[0].same_key(Sound::key(self.tonic(), octave)),
    {
        Scale::lemma_offsets(self.mode());
        let sounds = self.octave_sounds(octave);
        assert forall|i: int, j: int| 0 <= i < j < sounds.len() implies sounds[i].height()
            <= sounds[j].height() by {
            self.lemma_octave_sound_height(octave, i);
            self.lemma_octave_sound_height(octave, j);
        }
        self.lemma_octave_sound_height(octave, 0);
        sounds[0].lemma_same_key_same_height(Sound::key(self.tonic(), octave));
    }
}

} // verus!
