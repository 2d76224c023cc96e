//! The range of a scale: its sounds over the octaves from the first upward,
//! in rising order, with lookups by sound and steps by scale degrees.

use crate::scale::Scale;
use crate::sound::Sound;
use vstd::prelude::*;

verus! {

/// Why a lookup in a scale range fails.
#[derive(Debug, Clone, Copy, PartialEq, Eq, Structural)]
pub enum LookupError {
    /// The sound is not among those of the range.
    PitchNotInScale,
    /// The step would lead below the first sound of the range.
    RangeUnderflow,
}

/// The sounds of `scale` over its first `octaves` octaves, from the tonic of
/// octave 1 upward.
pub open spec fn range_sounds(scale: Scale, octaves: nat) -> Seq<Sound> {
    Seq::new(7 * octaves, |j: int| scale.octave_sounds((j / 7 + 1) as usize)[j % 7])
}

/// The number of octaves that a range of `octaves` octaves has once it is
/// made to cover `octave`.
pub open spec fn covering(octaves: nat, octave: nat) -> nat {
    if octaves < octave {
        octave
    } else {
        octaves
    }
}

/// Each sound of the sequence is lower than the next.
pub open spec fn increasing(sounds: Seq<Sound>) -> bool {
    forall|i: int, j: int| 0 <= i < j < sounds.len() ==> sounds[i].height() < sounds[j].height()
}

/// The sequence holds the key of `sound` at `position`.
pub open spec fn holds_at(sounds: Seq<Sound>, sound: Sound, position: int) -> bool {
    0 <= position < sounds.len() && sounds[position].same_key(sound)
}

/// The sequence holds the key of `sound`.
pub open spec fn holds(sounds: Seq<Sound>, sound: Sound) -> bool {
    exists|position: int| holds_at(sounds, sound, position)
}

/// A place at which the sequence holds the key of `sound`. An increasing
/// sequence has only one.
pub open spec fn position(sounds: Seq<Sound>, sound: Sound) -> int {
    choose|position: int| holds_at(sounds, sound, position)
}

/// The sound that stands `number` places before `sound` in the sequence.
pub open spec fn stepped_back(sounds: Seq<Sound>, sound: Sound, number: nat) -> Result<
    Sound,
    LookupError,
> {
    if !holds(sounds, sound) {
        Err(LookupError::PitchNotInScale)
    } else if position(sounds, sound) < number {
        Err(LookupError::RangeUnderflow)
    } else {
        Ok(sounds[position(sounds, sound) - number])
    }
}

/// The height of the sound at `place` in a scale range.
pub proof fn lemma_range_height(scale: Scale, octaves: nat, place: int)
    requires
        octaves < usize::MAX,
        0 <= place < 7 * octaves,
    ensures
        range_sounds(scale, octaves)[place].height() == (place / 7) * 12 + scale.tonic().value()
            + scale.mode().offsets()[place % 7],
        range_sounds(scale, octaves)[place].note() == scale.degrees()[place % 7],
        range_sounds(scale, octaves)[place].wf(),
{
    broadcast use Sound::lemma_key_parts;

    let octave = (place / 7 + 1) as usize;
    scale.lemma_octave_sound_height(octave, place % 7);
}

/// A scale range rises from each sound to the next.
pub proof fn lemma_range_increasing(scale: Scale, octaves: nat)
    requires
        octaves < usize::MAX,
    ensures
        increasing(range_sounds(scale, octaves)),
{
    let sounds = range_sounds(scale, octaves);
    Scale::lemma_offsets(scale.mode());
    assert forall|i: int, j: int| 0 <= i < j < sounds.len() implies sounds[i].height()
        < sounds[j].height() by {
        lemma_range_height(scale, octaves, i);
        lemma_range_height(scale, octaves, j);
        if i / 7 == j / 7 {
            assert(i % 7 < j % 7);
        } else {
            assert(i / 7 < j / 7);
        }
    }
}

/// Every sound of a scale range belongs to the scale: its note is the note
/// of one of the seven degrees.
pub proof fn lemma_range_in_scale(scale: Scale, octaves: nat, place: int)
    requires
        octaves < usize::MAX,
        0 <= place < 7 * octaves,
    ensures
        exists|degree: int|
            0 <= degree < 7 && range_sounds(scale, octaves)[place].note()
                == scale.degrees()[degree],
{
    lemma_range_height(scale, octaves, place);
    assert(0 <= place % 7 < 7);
}

/// A scale range over more octaves starts with the range over fewer.
pub proof fn lemma_range_prefix(scale: Scale, fewer: nat, more: nat)
    requires
        fewer <= more,
    ensures
        range_sounds(scale, fewer).is_prefix_of(range_sounds(scale, more)),
{
    assert(7 * fewer <= 7 * more);
}

/// The range over one more octave is the range followed by the sounds of
/// that octave.
pub proof fn lemma_range_next_octave(scale: Scale, octaves: nat)
    requires
        octaves + 1 < usize::MAX,
    ensures
        range_sounds(scale, octaves + 1) == range_sounds(scale, octaves) + scale.octave_sounds(
            (octaves + 1) as usize,
        ),
{
    let longer = range_sounds(scale, octaves + 1);
    let joined = range_sounds(scale, octaves) + scale.octave_sounds((octaves + 1) as usize);
    assert(longer.len() == joined.len());
    assert forall|j: int| 0 <= j < longer.len() implies longer[j] == joined[j] by {
        if j >= 7 * octaves {
            assert(j / 7 == octaves);
            assert(j % 7 == j - 7 * octaves);
        }
    }
    assert(longer =~= joined);
}

/// In an increasing sequence the key of a sound stands at one place only.
pub proof fn lemma_position_unique(sounds: Seq<Sound>, sound: Sound, place: int)
    requires
        increasing(sounds),
        holds_at(sounds, sound, place),
    ensures
        holds(sounds, sound),
        position(sounds, sound) == place,
{
    let chosen = position(sounds, sound);
    sounds[place].lemma_same_key_same_height(sound);
    sounds[chosen].lemma_same_key_same_height(sound);
}

/// The key of a sound stands within the octaves of the range up to its own.
pub proof fn lemma_place_within_octave(scale: Scale, octaves: nat, sound: Sound, place: int)
    requires
        octaves < usize::MAX,
        holds_at(range_sounds(scale, octaves), sound, place),
    ensures
        place < 7 * sound.octave(),
{
    lemma_range_height(scale, octaves, place);
    range_sounds(scale, octaves)[place].lemma_same_key_same_height(sound);
    sound.note().lemma_value_round_trip();
    assert(place / 7 < sound.octave());
}

/// A step back from a sound gives the same in every range that covers the
/// octave of the sound.
pub proof fn lemma_stepped_back_any_cover(
    scale: Scale,
    fewer: nat,
    more: nat,
    sound: Sound,
    number: nat,
)
    requires
        sound.octave() <= fewer <= more < usize::MAX,
    ensures
        stepped_back(range_sounds(scale, fewer), sound, number) == stepped_back(
            range_sounds(scale, more),
            sound,
            number,
        ),
{
    let small = range_sounds(scale, fewer);
    let large = range_sounds(scale, more);
    lemma_range_increasing(scale, fewer);
    lemma_range_increasing(scale, more);
    assert(7 * fewer <= 7 * more);
    if holds(large, sound) {
        let place = position(large, sound);
        lemma_place_within_octave(scale, more, sound, place);
        assert(small[place] == large[place]);
        lemma_position_unique(small, sound, place);
    }
    if holds(small, sound) {
        let place = position(small, sound);
        assert(small[place] == large[place]);
        lemma_position_unique(large, sound, place);
        if place >= number {
            assert(small[place - number] == large[place - number]);
        }
    }
}

/// The sound that a step back gives stands in the range, in no higher an
/// octave than the sound that the step started from.
pub proof fn lemma_stepped_back_lower(scale: Scale, octaves: nat, sound: Sound, number: nat)
    requires
        octaves < usize::MAX,
        stepped_back(range_sounds(scale, octaves), sound, number) is Ok,
    ensures
        ({
            let sounds = range_sounds(scale, octaves);
            let lower = stepped_back(sounds, sound, number)->Ok_0;
            &&& holds_at(sounds, sound, position(sounds, sound))
            &&& lower == sounds[position(sounds, sound) - number]
            &&& holds_at(sounds, lower, position(sounds, sound) - number)
            &&& lower.height() <= sound.height()
            &&& lower.octave() <= sound.octave()
            &&& number > 0 ==> lower.height() < sound.height()
        }),
{
    let sounds = range_sounds(scale, octaves);
    let place = position(sounds, sound);
    let lower = sounds[place - number];
    lemma_range_increasing(scale, octaves);
    sounds[place].lemma_same_key_same_height(sound);
    lower.lemma_height_order(sound);
    sound.lemma_height_order(lower);
}

/// Making a range cover an octave a second time changes nothing.
pub proof fn lemma_cover_idempotent(scale: Scale, octaves: nat, octave: nat)
    ensures
        covering(covering(octaves, octave), octave) == covering(octaves, octave),
        range_sounds(scale, covering(covering(octaves, octave), octave)) == range_sounds(
            scale,
            covering(octaves, octave),
        ),
{
}

/// The sounds of a scale over its first octaves, in rising order. The range
/// starts empty and only ever grows, by whole octaves.
pub struct ScaleRange {
    scale: Scale,
    sounds: Vec<Sound>,
}

impl View for ScaleRange {
    type V = Seq<Sound>;

    closed spec fn view(&self) -> Seq<Sound> {
        self.sounds@
    }
}

impl ScaleRange {
    /// The scale of the range.
    pub closed spec fn scale(self) -> Scale {
        self.scale
    }

    /// The number of octaves that the range covers.
    pub open spec fn octaves(self) -> nat {
        (self@.len() / 7) as nat
    }

    /// The range holds the sounds of its scale over its octaves, and nothing
    /// else.
    pub open spec fn wf(self) -> bool {
        &&& self@ == range_sounds(self.scale(), self.octaves())
        &&& self.octaves() < usize::MAX
    }

    /// A range rises from each sound to the next, and each of its sounds
    /// belongs to its scale: the sounds run through the seven degrees in
    /// turn.
    pub proof fn lemma_invariant(self)
        requires
            self.wf(),
        ensures
            self@.len() == 7 * self.octaves(),
            increasing(self@),
            forall|place: int|
                0 <= place < self@.len() ==> (#[trigger] self@[place]).note()
                    == self.scale().degrees()[place % 7] && self@[place].wf(),
    {
        lemma_range_increasing(self.scale(), self.octaves());
        assert forall|place: int| 0 <= place < self@.len() implies (#[trigger] self@[place]).note()
            == self.scale().degrees()[place % 7] && self@[place].wf() by {
            lemma_range_height(self.scale(), self.octaves(), place);
        }
    }

    /// Creates the empty range of a scale.
    pub fn new(scale: Scale) -> (range: Self)
        ensures
            range.wf(),
            range.scale() == scale,
            range@ == Seq::<Sound>::empty(),
    {
        let range = Self { scale, sounds: Vec::new() };
        assert(range@ =~= range_sounds(scale, 0));
        range
    }

    /// Gives the number of octaves that the range covers.
    pub fn covered(&self) -> (octaves: usize)
        ensures
            octaves == self.octaves(),
    {
        self.sounds.len() / 7
    }

    /// Gives the sounds of the range.
    pub fn sounds(&self) -> (sounds: &Vec<Sound>)
        ensures
            sounds@ == self@,
    {
        &self.sounds
    }

    /// Makes the range cover `octave`: appends the sounds of each octave that
    /// is missing up to it, in rising order. A range that covers the octave
    /// already stays as it is.
    pub fn extend_to_cover(&mut self, octave: usize)
        requires
            old(self).wf(),
            octave < usize::MAX,
        ensures
            final(self).wf(),
            final(self).scale() == old(self).scale(),
            final(self).octaves() == covering(old(self).octaves(), octave as nat),
            old(self)@.is_prefix_of(final(self)@),
    {
        let mut next: usize = self.covered() + 1;
        while next <= octave
            invariant
                self.wf(),
                self.scale() == old(self).scale(),
                octave < usize::MAX,
                next == self.octaves() + 1,
                old(self).octaves() <= self.octaves(),
                self.octaves() <= covering(old(self).octaves(), octave as nat),
            decreases octave + 1 - next,
        {
            let mut sounds = self.scale.sounds(next);
            proof {
                lemma_range_next_octave(self.scale(), self.octaves());
            }
            self.sounds.append(&mut sounds);
            next += 1;
        }
        proof {
            lemma_range_prefix(self.scale(), old(self).octaves(), self.octaves());
        }
    }

    /// Finds the place of the key of `sound` in the range.
    pub fn locate(&self, sound: Sound) -> (found: Result<usize, LookupError>)
        requires
            self.wf(),
        ensures
            found is Ok <==> holds(self@, sound),
            match found {
                Ok(place) => place == position(self@, sound) && holds_at(self@, sound, place as int),
                Err(error) => error == LookupError::PitchNotInScale,
            },
    {
        proof {
            lemma_range_increasing(self.scale(), self.octaves());
        }
        let mut low: usize = 0;
        let mut high: usize = self.sounds.len();
        while low < high
            invariant
                low <= high <= self.sounds.len(),
                increasing(self.sounds@),
                forall|i: int| 0 <= i < low ==> self.sounds[i].height() < sound.height(),
                forall|i: int|
                    high <= i < self.sounds.len() ==> self.sounds[i].height() > sound.height(),
            decreases high - low,
        {
            let middle: usize = low + (high - low) / 2;
            let here = self.sounds[middle];
            if here == sound {
                proof {
                    lemma_position_unique(self@, sound, middle as int);
                }
                return Ok(middle);
            } else if here < sound {
                low = middle + 1;
            } else {
                proof {
                    here.lemma_same_key_same_height(sound);
                }
                high = middle;
            }
        }
        proof {
            assert forall|place: int| !holds_at(self@, sound, place) by {
                if 0 <= place < self@.len() {
                    self@[place].lemma_same_key_same_height(sound);
                }
            }
        }
        Err(LookupError::PitchNotInScale)
    }

    /// Gives the sound that stands `number` scale degrees below `sound`.
    pub fn step_back(&self, sound: Sound, number: usize) -> (lower: Result<Sound, LookupError>)
        requires
            self.wf(),
        ensures
            lower == stepped_back(self@, sound, number as nat),
    {
        match self.locate(sound) {
            Ok(place) => {
                if place < number {
                    Err(LookupError::RangeUnderflow)
                } else {
                    Ok(self.sounds[place - number])
                }
            },
            Err(error) => Err(error),
        }
    }
}

} // verus!
