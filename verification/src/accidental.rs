//! The accidentals: flats, sharps and naturals.

use crate::note::Note;
use vstd::prelude::*;

verus! {

/// The text made of `count` copies of `symbol`.
pub open spec fn repeated(symbol: char, count: nat) -> Seq<char> {
    Seq::new(count, |i: int| symbol)
}

/// Implements the flat symbol ('♭'), written one or more times.
#[derive(Debug, Clone, Copy)]
pub struct Bemol {
    number: u8,
}

/// The flat symbol under its other name.
pub type Flat = Bemol;

impl Bemol {
    /// An accidental holds at least one symbol.
    #[verifier::type_invariant]
    pub closed spec fn wf(self) -> bool {
        self.number >= 1
    }

    pub closed spec fn spec_number(&self) -> usize {
        self.number as usize
    }

    /// The note that lies as many semitones below `note` as there are flats.
    pub open spec fn lowered(self, note: Note) -> Note {
        Note::from_value(note.value() - self.number())
    }

    /// Creates flat symbols concatenated a given number of times, which must
    /// not be 0.
    pub fn init(number: u8) -> (bemol: Self)
        requires
            number > 0,
        ensures
            bemol.number() == number,
    {
        Self { number }
    }

    /// Gives the number of flats.
    #[verifier::when_used_as_spec(spec_number)]
    pub fn number(&self) -> (number: usize)
        ensures
            number == self.spec_number(),
            1 <= number <= 255,
    {
        proof {
            use_type_invariant(self);
        }
        self.number as usize
    }

    /// Converts the flats to a string.
    pub fn display(&self) -> (text: String)
        ensures
            text@ == repeated('♭', self.number() as nat),
    {
        let mut text = String::new();
        let mut i: usize = 0;
        while i < self.number()
            invariant
                i <= self.number(),
                text@ == repeated('♭', i as nat),
            decreases self.number() - i,
        {
            proof {
                reveal_strlit("♭");
            }
            text.append("♭");
            i += 1;
            assert(text@ =~= repeated('♭', i as nat));
        }
        text
    }

    /// Lowers a note by the flats.
    pub fn add_note(&self, note: &Note) -> (lowered: Note)
        ensures
            lowered == self.lowered(*note),
    {
        let int_acc: usize = self.number() % 12;
        let int_note: usize = note.to_usize() % 12;
        let res_int_note: usize = if int_note >= int_acc {
            int_note - int_acc
        } else {
            (int_note + 12 - int_acc) % 12
        };
        proof {
            let value = note.value() as int;
            let number = self.number() as int;
            let octaves = number / 12;
            assert(int_note == value);
            assert(number == 12 * octaves + int_acc);
            if int_note >= int_acc {
                assert(res_int_note == value - number + 12 * octaves);
                Note::lemma_from_value_periodic_multiple(value - number, octaves);
            } else {
                assert(res_int_note == value - number + 12 * (octaves + 1));
                Note::lemma_from_value_periodic_multiple(value - number, octaves + 1);
            }
        }
        Note::from_usize(res_int_note)
    }
}

/// Implements the sharp symbol ('#'), written one or more times.
#[derive(Debug, Clone, Copy)]
pub struct Sharp {
    number: u8,
}

impl Sharp {
    /// An accidental holds at least one symbol.
    #[verifier::type_invariant]
    pub closed spec fn wf(self) -> bool {
        self.number >= 1
    }

    pub closed spec fn spec_number(&self) -> usize {
        self.number as usize
    }

    /// The note that lies as many semitones above `note` as there are sharps.
    pub open spec fn raised(self, note: Note) -> Note {
        Note::from_value(note.value() + self.number())
    }

    /// Creates sharp symbols concatenated a given number of times, which must
    /// not be 0.
    pub fn init(number: u8) -> (sharp: Self)
        requires
            number > 0,
        ensures
            sharp.number() == number,
    {
        Self { number }
    }

    /// Gives the number of sharps.
    #[verifier::when_used_as_spec(spec_number)]
    pub fn number(&self) -> (number: usize)
        ensures
            number == self.spec_number(),
            1 <= number <= 255,
    {
        proof {
            use_type_invariant(self);
        }
        self.number as usize
    }

    /// Converts the sharps to a string.
    pub fn display(&self) -> (text: String)
        ensures
            text@ == repeated('#', self.number() as nat),
    {
        let mut text = String::new();
        let mut i: usize = 0;
        while i < self.number()
            invariant
                i <= self.number(),
                text@ == repeated('#', i as nat),
            decreases self.number() - i,
        {
            proof {
                reveal_strlit("#");
            }
            text.append("#");
            i += 1;
            assert(text@ =~= repeated('#', i as nat));
        }
        text
    }

    /// Raises a note by the sharps.
    pub fn add_note(&self, note: &Note) -> (raised: Note)
        ensures
            raised == self.raised(*note),
    {
        let int_note: usize = (self.number() + note.to_usize()) % 12;
        Note::from_usize(int_note)
    }
}

/// Implements the natural symbol ('♮'), written one or more times.
#[derive(Debug, Clone, Copy)]
pub struct Natural {
    number: u8,
}

impl Natural {
    /// An accidental holds at least one symbol.
    #[verifier::type_invariant]
    pub closed spec fn wf(self) -> bool {
        self.number >= 1
    }

    pub closed spec fn spec_number(&self) -> usize {
        self.number as usize
    }

    /// The note as it is written without its sharp or flat.
    pub open spec fn plain(note: Note) -> Note {
        match note {
            Note::As | Note::Ab => Note::A,
            Note::Bs | Note::Bb => Note::B,
            Note::Cs | Note::Cb => Note::C,
            Note::Ds | Note::Db => Note::D,
            Note::Es | Note::Eb => Note::E,
            Note::Fb | Note::Fs => Note::F,
            Note::Gs | Note::Gb => Note::G,
            _ => note,
        }
    }

    /// Creates natural symbols concatenated a given number of times, which
    /// must not be 0.
    pub fn init(number: u8) -> (natural: Self)
        requires
            number > 0,
        ensures
            natural.number() == number,
    {
        Self { number }
    }

    /// Gives the number of naturals.
    #[verifier::when_used_as_spec(spec_number)]
    pub fn number(&self) -> (number: usize)
        ensures
            number == self.spec_number(),
            1 <= number <= 255,
    {
        proof {
            use_type_invariant(self);
        }
        self.number as usize
    }

    /// Converts the naturals to a string.
    pub fn display(&self) -> (text: String)
        ensures
            text@ == repeated('♮', self.number() as nat),
    {
        let mut text = String::new();
        let mut i: usize = 0;
        while i < self.number()
            invariant
                i <= self.number(),
                text@ == repeated('♮', i as nat),
            decreases self.number() - i,
        {
            proof {
                reveal_strlit("♮");
            }
            text.append("♮");
            i += 1;
            assert(text@ =~= repeated('♮', i as nat));
        }
        text
    }

    /// Strips the sharp or flat from the spelling of a note.
    pub fn add_note(&self, note: &Note) -> (plain: Note)
        ensures
            plain == Natural::plain(*note),
    {
        match *note {
            Note::As => Note::A,
            Note::Ab => Note::A,
            Note::Bs => Note::B,
            Note::Bb => Note::B,
            Note::Cs => Note::C,
            Note::Cb => Note::C,
            Note::Ds => Note::D,
            Note::Db => Note::D,
            Note::Es => Note::E,
            Note::Eb => Note::E,
            Note::Fb => Note::F,
            Note::Fs => Note::F,
            Note::Gs => Note::G,
            Note::Gb => Note::G,
            _ => *note,
        }
    }
}

} // verus!
