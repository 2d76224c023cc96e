//! Harmonization after Kraehenbuehl and Knuth: each sound of a melody gets
//! three voices below it, in one of three shapes that take turns as a coin
//! decides.

use crate::chord::Chord;
use crate::harmony::coin::{seeded_flips, Coin};
use crate::harmony::scale_range::{
    covering, holds_at, increasing, lemma_position_unique, lemma_range_height,
    lemma_range_increasing, lemma_stepped_back_any_cover, lemma_stepped_back_lower, range_sounds,
    stepped_back, LookupError, ScaleRange,
};
use crate::note::Note;
use crate::scale::{Scale, ScaleType};
use crate::sound::Sound;
use vstd::prelude::*;

verus! {

/// How many scale degrees below the melody the bass, the tenor and the alto
/// lie when the rotation is `rotation`.
pub open spec fn shape(rotation: nat) -> (nat, nat, nat) {
    if rotation == 1 {
        (7, 5, 3)
    } else if rotation == 2 {
        (9, 5, 2)
    } else {
        (11, 4, 2)
    }
}

/// The rotation that follows `rotation` when the coin shows `flip`.
pub open spec fn next_rotation(rotation: nat, flip: nat) -> nat {
    (rotation + 1 + 2 * flip) % 3
}

/// The seventh degree of the scale.
pub open spec fn leading_tone(scale: Scale) -> Note {
    scale.degrees()[6]
}

/// The chord of the shape of `rotation` under `sound`, from the bass up to
/// `sound` itself.
pub open spec fn raw_chord(sounds: Seq<Sound>, rotation: nat, sound: Sound) -> Result<
    Seq<Sound>,
    LookupError,
> {
    match stepped_back(sounds, sound, shape(rotation).0) {
        Err(error) => Err(error),
        Ok(bass) => match stepped_back(sounds, sound, shape(rotation).1) {
            Err(error) => Err(error),
            Ok(tenor) => match stepped_back(sounds, sound, shape(rotation).2) {
                Err(error) => Err(error),
                Ok(alto) => Ok(seq![bass, tenor, alto, sound]),
            },
        },
    }
}

/// The chord with its bass taken two degrees down if it is the leading tone
/// of the scale. The new bass is not looked at again.
pub open spec fn guarded(sounds: Seq<Sound>, scale: Scale, chord: Seq<Sound>) -> Result<
    Seq<Sound>,
    LookupError,
> {
    if chord[0].note().value() == leading_tone(scale).value() {
        match stepped_back(sounds, chord[0], 2) {
            Err(error) => Err(error),
            Ok(bass) => Ok(chord.update(0, bass)),
        }
    } else {
        Ok(chord)
    }
}

/// The chord that harmonizes `sound`: the chord of the shape, with its bass
/// guarded.
pub open spec fn voiced(sounds: Seq<Sound>, scale: Scale, rotation: nat, sound: Sound) -> Result<
    Seq<Sound>,
    LookupError,
> {
    match raw_chord(sounds, rotation, sound) {
        Err(error) => Err(error),
        Ok(chord) => guarded(sounds, scale, chord),
    }
}

/// The sounds of each chord.
pub open spec fn chord_views(chords: Seq<Chord>) -> Seq<Seq<Sound>> {
    Seq::new(chords.len(), |i: int| chords[i]@)
}

/// The state of a harmonizer.
pub struct Harmony {
    /// The melody to harmonize.
    pub melody: Seq<Sound>,
    /// The scale of the harmony.
    pub scale: Scale,
    /// The shape of the next chord: 0, 1 or 2.
    pub rotation: nat,
    /// The seed of the coin.
    pub seed: u64,
    /// How many flips the coin has given.
    pub drawn: nat,
    /// How many octaves of the scale the range covers.
    pub octaves: nat,
}

impl Harmony {
    /// The state before the first step.
    pub open spec fn fresh(melody: Seq<Sound>, scale: Scale, seed: u64) -> Harmony {
        Harmony { melody, scale, rotation: 0, seed, drawn: 0, octaves: 0 }
    }

    /// The sounds of the range.
    pub open spec fn sounds(self) -> Seq<Sound> {
        range_sounds(self.scale, self.octaves)
    }

    /// The state once the range covers `octave`.
    pub open spec fn covered(self, octave: nat) -> Harmony {
        Harmony { octaves: covering(self.octaves, octave), ..self }
    }

    /// The chord that harmonizes `sound` in this state.
    pub open spec fn chord(self, sound: Sound) -> Result<Seq<Sound>, LookupError> {
        voiced(self.sounds(), self.scale, self.rotation, sound)
    }

    /// The state once the rotation has moved on by `flip`.
    pub open spec fn turned(self, flip: nat) -> Harmony {
        Harmony { rotation: next_rotation(self.rotation, flip), ..self }
    }

    /// The flip that the coin gives next.
    pub open spec fn flip(self) -> u8 {
        seeded_flips(self.seed)[self.drawn]
    }

    /// The state once the coin has given one more flip.
    pub open spec fn flipped(self) -> Harmony {
        Harmony { drawn: self.drawn + 1, ..self }
    }

    /// One step: the range is made to cover the octave of `sound`, the chord
    /// is built, and if that succeeds the coin is flipped and the rotation
    /// moves on. A step that fails leaves the coin and the rotation alone.
    pub open spec fn step(self, sound: Sound) -> (Result<Seq<Sound>, LookupError>, Harmony) {
        let covered = self.covered(sound.octave() as nat);
        match covered.chord(sound) {
            Err(error) => (Err(error), covered),
            Ok(chord) => (Ok(chord), covered.flipped().turned(covered.flip() as nat)),
        }
    }

    /// The chords of the first `count` sounds of the melody, and the state
    /// after them. The first step that fails ends the run with its error.
    pub open spec fn harmonized(self, count: nat) -> (
        Result<Seq<Seq<Sound>>, LookupError>,
        Harmony,
    )
        decreases count,
    {
        if count == 0 {
            (Ok(Seq::empty()), self)
        } else {
            let (before, state) = self.harmonized((count - 1) as nat);
            match before {
                Err(error) => (Err(error), state),
                Ok(chords) => {
                    let (chord, after) = state.step(self.melody[count - 1]);
                    match chord {
                        Err(error) => (Err(error), after),
                        Ok(chord) => (Ok(chords.push(chord)), after),
                    }
                },
            }
        }
    }
}

/// A harmonizer after Kraehenbuehl and Knuth: it sets a chord of four voices
/// under each sound of a melody.
pub struct KraehenbuehlKnuth {
    melody: Vec<Sound>,
    scale: Scale,
    next_position: u8,
    seed: u64,
    coin: Coin,
    scale_range: ScaleRange,
}

impl View for KraehenbuehlKnuth {
    type V = Harmony;

    closed spec fn view(&self) -> Harmony {
        Harmony {
            melody: self.melody@,
            scale: self.scale,
            rotation: self.next_position as nat,
            seed: self.seed,
            drawn: self.coin.drawn(),
            octaves: self.scale_range.octaves(),
        }
    }
}

impl KraehenbuehlKnuth {
    /// The rotation is 0, 1 or 2, the range is that of the scale, and the
    /// coin is that of the seed.
    pub closed spec fn wf(self) -> bool {
        &&& self.next_position < 3
        &&& self.scale_range.wf()
        &&& self.scale_range.scale() == self.scale
        &&& self.coin.wf()
        &&& self.coin.seed() == self.seed
    }

    /// The range can be made to cover every sound of the melody.
    pub open spec fn in_reach(melody: Seq<Sound>) -> bool {
        forall|i: int| 0 <= i < melody.len() ==> (#[trigger] melody[i]).octave() < usize::MAX
    }

    /// Creates a harmonizer for a melody. Without a scale it takes the one
    /// that `find_scale` gives. The seed of its coin is 0.
    pub fn init(melody: Vec<Sound>, scale: Option<Scale>) -> (harmonizer: Self)
        ensures
            harmonizer.wf(),
            harmonizer@ == Harmony::fresh(
                melody@,
                match scale {
                    Some(scale) => scale,
                    None => Scale::of(Note::C, ScaleType::Major),
                },
                0,
            ),
    {
        Self::init_with_seed(melody, scale, 0)
    }

    /// Creates a harmonizer for a melody, with the seed of its coin.
    pub fn init_with_seed(melody: Vec<Sound>, scale: Option<Scale>, seed: u64) -> (harmonizer:
        Self)
        ensures
            harmonizer.wf(),
            harmonizer@ == Harmony::fresh(
                melody@,
                match scale {
                    Some(scale) => scale,
                    None => Scale::of(Note::C, ScaleType::Major),
                },
                seed,
            ),
    {
        let scale = match scale {
            Some(scale) => scale,
            None => Self::find_scale(&melody),
        };
        Self {
            melody,
            next_position: 0,
            scale,
            seed,
            coin: Coin::seeded(seed),
            scale_range: ScaleRange::new(scale),
        }
    }

    /// Gives the scale for a melody that comes without one. No key is
    /// inferred from the melody: the scale is always C major.
    pub fn find_scale(melody: &Vec<Sound>) -> (scale: Scale)
        ensures
            scale == Scale::of(Note::C, ScaleType::Major),
    {
        Scale::default()
    }

    /// Tests whether the range can be made to cover every sound of the
    /// melody, as `harmonize` asks.
    pub fn melody_in_reach(&self) -> (in_reach: bool)
        ensures
            in_reach == Self::in_reach(self@.melody),
    {
        let mut i: usize = 0;
        while i < self.melody.len()
            invariant
                i <= self.melody.len(),
                forall|k: int| 0 <= k < i ==> (#[trigger] self.melody[k]).octave() < usize::MAX,
            decreases self.melody.len() - i,
        {
            if self.melody[i].octave() == usize::MAX {
                return false;
            }
            i += 1;
        }
        true
    }

    /// Gives the shape of the next chord: 0, 1 or 2.
    pub fn next_position(&self) -> (rotation: u8)
        requires
            self.wf(),
        ensures
            rotation == self@.rotation,
            rotation < 3,
    {
        self.next_position
    }

    /// Gives the sound that lies `number` scale degrees below `sound` in the
    /// range.
    pub fn sound_below(&self, sound: Sound, number: usize) -> (lower: Result<Sound, LookupError>)
        requires
            self.wf(),
        ensures
            lower == stepped_back(self@.sounds(), sound, number as nat),
    {
        self.scale_range.step_back(sound, number)
    }

    /// Guards the bass of a chord: if it is the leading tone of the scale, it
    /// is taken two degrees down. On an error the chord stays as it was.
    pub fn adjust_bass(&self, chord: &mut Vec<Sound>) -> (done: Result<(), LookupError>)
        requires
            self.wf(),
            old(chord)@.len() > 0,
        ensures
            match done {
                Ok(_) => guarded(self@.sounds(), self@.scale, old(chord)@) == Ok::<
                    Seq<Sound>,
                    LookupError,
                >(final(chord)@),
                Err(error) => guarded(self@.sounds(), self@.scale, old(chord)@) == Err::<
                    Seq<Sound>,
                    LookupError,
                >(error) && final(chord)@ == old(chord)@,
            },
    {
        let bass_note = chord[0].note();
        let scale_notes = self.scale.notes();
        let leading_tone = scale_notes[scale_notes.len() - 1];
        if bass_note == leading_tone {
            match self.sound_below(chord[0], 2) {
                Ok(bass) => {
                    chord[0] = bass;
                    Ok(())
                },
                Err(error) => Err(error),
            }
        } else {
            Ok(())
        }
    }

    /// Builds the chord that harmonizes `sound` with the present shape: the
    /// three voices below it, the bass guarded, and `sound` on top.
    pub fn voices(&self, sound: Sound) -> (voices: Result<Chord, LookupError>)
        requires
            self.wf(),
        ensures
            match voices {
                Ok(chord) => self@.chord(sound) == Ok::<Seq<Sound>, LookupError>(chord@),
                Err(error) => self@.chord(sound) == Err::<Seq<Sound>, LookupError>(error),
            },
    {
        let (bass, tenor, alto): (usize, usize, usize) = if self.next_position == 1 {
            (7, 5, 3)
        } else if self.next_position == 2 {
            (9, 5, 2)
        } else {
            (11, 4, 2)
        };
        let bass = match self.sound_below(sound, bass) {
            Ok(bass) => bass,
            Err(error) => {
                return Err(error);
            },
        };
        let tenor = match self.sound_below(sound, tenor) {
            Ok(tenor) => tenor,
            Err(error) => {
                return Err(error);
            },
        };
        let alto = match self.sound_below(sound, alto) {
            Ok(alto) => alto,
            Err(error) => {
                return Err(error);
            },
        };
        let mut chord = vec![bass, tenor, alto, sound];
        assert(chord@ =~= seq![bass, tenor, alto, sound]);
        match self.adjust_bass(&mut chord) {
            Ok(_) => Ok(Chord::from_vec(chord)),
            Err(error) => Err(error),
        }
    }

    /// Moves the rotation on by a flip of the coin, 0 or 1: a 0 takes the
    /// next shape, a 1 keeps the present one.
    pub fn rotate(&mut self, random_number: u8)
        requires
            old(self).wf(),
            random_number <= 1,
        ensures
            final(self).wf(),
            final(self)@ == old(self)@.turned(random_number as nat),
    {
        self.next_position = (self.next_position + 1 + 2 * random_number) % 3;
    }

    /// Harmonizes `sound` with the present shape, and moves the rotation on
    /// by `random_number`, which is 0 or 1. On an error nothing changes.
    pub fn get_chord(&mut self, sound: Sound, random_number: u8) -> (voices: Result<
        Chord,
        LookupError,
    >)
        requires
            old(self).wf(),
            random_number <= 1,
        ensures
            final(self).wf(),
            match voices {
                Ok(chord) => old(self)@.chord(sound) == Ok::<Seq<Sound>, LookupError>(chord@)
                    && final(self)@ == old(self)@.turned(random_number as nat),
                Err(error) => old(self)@.chord(sound) == Err::<Seq<Sound>, LookupError>(error)
                    && final(self)@ == old(self)@,
            },
    {
        match self.voices(sound) {
            Ok(chord) => {
                self.rotate(random_number);
                Ok(chord)
            },
            Err(error) => Err(error),
        }
    }

    /// Makes the range cover `octave`.
    pub fn add_octaves(&mut self, octave: usize)
        requires
            old(self).wf(),
            octave < usize::MAX,
        ensures
            final(self).wf(),
            final(self)@ == old(self)@.covered(octave as nat),
    {
        self.scale_range.extend_to_cover(octave);
    }

    /// Harmonizes the melody: gives one chord for each of its sounds, in
    /// their order. The first sound that cannot be harmonized ends the run
    /// with its error. The rotation, the coin and the range go on from
    /// where an earlier run left them.
    pub fn harmonize(&mut self) -> (harmonics: Result<Vec<Chord>, LookupError>)
        requires
            old(self).wf(),
            Self::in_reach(old(self)@.melody),
        ensures
            final(self).wf(),
            final(self)@ == old(self)@.harmonized(old(self)@.melody.len()).1,
            match harmonics {
                Ok(chords) => old(self)@.harmonized(old(self)@.melody.len()).0 == Ok::<
                    Seq<Seq<Sound>>,
                    LookupError,
                >(chord_views(chords@)),
                Err(error) => old(self)@.harmonized(old(self)@.melody.len()).0 == Err::<
                    Seq<Seq<Sound>>,
                    LookupError,
                >(error),
            },
    {
        let mut harmonics: Vec<Chord> = Vec::with_capacity(self.melody.len());
        let mut i: usize = 0;
        assert(chord_views(harmonics@) =~= Seq::<Seq<Sound>>::empty());
        while i < self.melody.len()
            invariant
                self.wf(),
                i <= self.melody.len(),
                self@.melody == old(self)@.melody,
                Self::in_reach(self@.melody),
                old(self)@.harmonized(i as nat) == (
                    Ok::<Seq<Seq<Sound>>, LookupError>(chord_views(harmonics@)),
                    self@,
                ),
            decreases self.melody.len() - i,
        {
            let sound = self.melody[i];
            let ghost done = chord_views(harmonics@);
            self.add_octaves(sound.octave());
            let chord = match self.voices(sound) {
                Ok(chord) => chord,
                Err(error) => {
                    proof {
                        assert(old(self)@.harmonized((i + 1) as nat).0 == Err::<
                            Seq<Seq<Sound>>,
                            LookupError,
                        >(error));
                        Self::lemma_harmonized_stops(old(self)@, (i + 1) as nat, self.melody@.len());
                    }
                    return Err(error);
                },
            };
            let random_number = self.coin.flip();
            self.rotate(random_number);
            harmonics.push(chord);
            proof {
                assert(chord_views(harmonics@) =~= done.push(chord@));
            }
            i += 1;
        }
        Ok(harmonics)
    }

    /// Once a step has failed, a longer run ends with the same error and in
    /// the same state.
    pub proof fn lemma_harmonized_stops(state: Harmony, failed: nat, count: nat)
        requires
            state.harmonized(failed).0 is Err,
            failed <= count,
        ensures
            state.harmonized(count) == state.harmonized(failed),
        decreases count,
    {
        if failed < count {
            Self::lemma_harmonized_stops(state, failed, (count - 1) as nat);
        }
    }
}

/// A flip of 0 takes the rotation to the next shape and a flip of 1 keeps
/// it; either way it stays 0, 1 or 2.
pub proof fn lemma_next_rotation(rotation: nat)
    requires
        rotation < 3,
    ensures
        next_rotation(rotation, 0) == (rotation + 1) % 3,
        next_rotation(rotation, 1) == rotation,
        forall|flip: nat| #[trigger] next_rotation(rotation, flip) < 3,
{
}

/// Only the seventh degree of a scale has the pitch class of its leading
/// tone.
pub proof fn lemma_leading_tone_degree(scale: Scale, degree: int)
    requires
        0 <= degree < 7,
        scale.degrees()[degree].value() == leading_tone(scale).value(),
    ensures
        degree == 6,
{
    Scale::lemma_offsets(scale.mode());
    scale.tonic().lemma_value_round_trip();
    Note::lemma_from_value_value(scale.degree_values()[degree] as int);
    Note::lemma_from_value_value(scale.degree_values()[6] as int);
    let tonic = scale.tonic().value();
    let offset = scale.mode().offsets()[degree];
    assert((offset + tonic) % 12 == (11 + tonic) % 12);
    assert(0 <= offset <= 11);
}

/// The bass guard: a bass on the leading tone of the scale is replaced by
/// the sound two degrees below it, which is no leading tone. This never
/// fails on a bass that is in the range.
pub proof fn lemma_guard_lowers_leading_tone(
    scale: Scale,
    octaves: nat,
    chord: Seq<Sound>,
    place: int,
)
    requires
        octaves < usize::MAX,
        chord.len() > 0,
        holds_at(range_sounds(scale, octaves), chord[0], place),
        chord[0].note().value() == leading_tone(scale).value(),
    ensures
        place >= 6,
        guarded(range_sounds(scale, octaves), scale, chord) == Ok::<Seq<Sound>, LookupError>(
            chord.update(0, range_sounds(scale, octaves)[place - 2]),
        ),
        range_sounds(scale, octaves)[place - 2].note().value() != leading_tone(scale).value(),
{
    let sounds = range_sounds(scale, octaves);
    lemma_range_increasing(scale, octaves);
    lemma_position_unique(sounds, chord[0], place);
    lemma_range_height(scale, octaves, place);
    lemma_leading_tone_degree(scale, place % 7);
    assert(place % 7 == 6);
    assert((place - 2) % 7 == 4);
    lemma_range_height(scale, octaves, place - 2);
    if sounds[place - 2].note().value() == leading_tone(scale).value() {
        lemma_leading_tone_degree(scale, 4);
    }
}

/// A bass that is not on the leading tone stays as it is.
pub proof fn lemma_guard_keeps_other_bass(sounds: Seq<Sound>, scale: Scale, chord: Seq<Sound>)
    requires
        chord[0].note().value() != leading_tone(scale).value(),
    ensures
        guarded(sounds, scale, chord) == Ok::<Seq<Sound>, LookupError>(chord),
{
}

/// The chord of a sound that stands at `place` in the range: its three lower
/// voices stand as many places before it as the shape says, the bass two
/// more if that place holds the leading tone. The chord fails with
/// `RangeUnderflow` exactly when the bass of the shape would stand before
/// the start of the range.
pub proof fn lemma_voiced_in_range(
    scale: Scale,
    octaves: nat,
    rotation: nat,
    sound: Sound,
    place: int,
)
    requires
        octaves < usize::MAX,
        holds_at(range_sounds(scale, octaves), sound, place),
    ensures
        ({
            let sounds = range_sounds(scale, octaves);
            let (bass, tenor, alto) = shape(rotation);
            let lowered = if sounds[place - bass].note().value() == leading_tone(scale).value() {
                place - bass - 2
            } else {
                place - bass
            };
            voiced(sounds, scale, rotation, sound) == if place < bass {
                Err::<Seq<Sound>, LookupError>(LookupError::RangeUnderflow)
            } else {
                Ok::<Seq<Sound>, LookupError>(
                    seq![sounds[lowered], sounds[place - tenor], sounds[place - alto], sound],
                )
            }
        }),
{
    let sounds = range_sounds(scale, octaves);
    let (bass, tenor, alto) = shape(rotation);
    lemma_range_increasing(scale, octaves);
    lemma_position_unique(sounds, sound, place);
    if place >= bass {
        let raw = seq![sounds[place - bass], sounds[place - tenor], sounds[place - alto], sound];
        assert(raw_chord(sounds, rotation, sound) == Ok::<Seq<Sound>, LookupError>(raw));
        assert(raw[0] == sounds[place - bass]);
        assert(holds_at(sounds, raw[0], place - bass));
        if raw[0].note().value() == leading_tone(scale).value() {
            lemma_guard_lowers_leading_tone(scale, octaves, raw, place - bass);
            assert(raw.update(0, sounds[place - bass - 2]) =~= seq![
                sounds[place - bass - 2],
                sounds[place - tenor],
                sounds[place - alto],
                sound,
            ]);
        }
    }
}

/// A sound whose key is not in the range cannot be harmonized.
pub proof fn lemma_voiced_out_of_range(
    sounds: Seq<Sound>,
    scale: Scale,
    rotation: nat,
    sound: Sound,
)
    requires
        forall|place: int| !holds_at(sounds, sound, place),
    ensures
        voiced(sounds, scale, rotation, sound) == Err::<Seq<Sound>, LookupError>(
            LookupError::PitchNotInScale,
        ),
{
}

/// A chord that harmonizes a sound has four voices, which rise from the
/// bass to the sound itself on top.
pub proof fn lemma_voiced_rises(scale: Scale, octaves: nat, rotation: nat, sound: Sound)
    requires
        octaves < usize::MAX,
        voiced(range_sounds(scale, octaves), scale, rotation, sound) is Ok,
    ensures
        ({
            let chord = voiced(range_sounds(scale, octaves), scale, rotation, sound)->Ok_0;
            &&& chord.len() == 4
            &&& chord[3] == sound
            &&& increasing(chord)
        }),
{
    let sounds = range_sounds(scale, octaves);
    let chord = voiced(sounds, scale, rotation, sound)->Ok_0;
    if exists|place: int| holds_at(sounds, sound, place) {
        let place = choose|place: int| holds_at(sounds, sound, place);
        let (bass, tenor, alto) = shape(rotation);
        lemma_voiced_in_range(scale, octaves, rotation, sound, place);
        let lowered = if sounds[place - bass].note().value() == leading_tone(scale).value() {
            place - bass - 2
        } else {
            place - bass
        };
        assert(lowered >= 0) by {
            if lowered != place - bass {
                let raw = seq![
                    sounds[place - bass],
                    sounds[place - tenor],
                    sounds[place - alto],
                    sound,
                ];
                lemma_guard_lowers_leading_tone(scale, octaves, raw, place - bass);
            }
        }
        assert(chord == seq![sounds[lowered], sounds[place - tenor], sounds[place - alto], sound]);
        assert(sounds[lowered].height() < sounds[place - tenor].height() < sounds[place
            - alto].height() < sounds[place].height()) by {
            lemma_range_increasing(scale, octaves);
        }
        sounds[place].lemma_same_key_same_height(sound);
    } else {
        lemma_voiced_out_of_range(sounds, scale, rotation, sound);
    }
}

/// A run that succeeds gives one chord for each sound it has gone through,
/// each of four rising voices with the sound of the melody on top.
pub proof fn lemma_harmonized_chords(state: Harmony, count: nat)
    requires
        state.octaves < usize::MAX,
        count <= state.melody.len(),
        KraehenbuehlKnuth::in_reach(state.melody),
        state.harmonized(count).0 is Ok,
    ensures
        state.harmonized(count).1.octaves < usize::MAX,
        state.harmonized(count).1.melody == state.melody,
        state.harmonized(count).1.scale == state.scale,
        state.harmonized(count).1.seed == state.seed,
        state.harmonized(count).1.drawn == state.drawn + count,
        state.harmonized(count).0->Ok_0.len() == count,
        forall|i: int|
            0 <= i < count ==> {
                let chord = #[trigger] state.harmonized(count).0->Ok_0[i];
                &&& chord.len() == 4
                &&& chord[3] == state.melody[i]
                &&& increasing(chord)
            },
    decreases count,
{
    if count > 0 {
        let (before, middle) = state.harmonized((count - 1) as nat);
        lemma_harmonized_chords(state, (count - 1) as nat);
        let sound = state.melody[count - 1];
        let covered = middle.covered(sound.octave() as nat);
        lemma_voiced_rises(covered.scale, covered.octaves, covered.rotation, sound);
    }
}

/// The chord of a shape is the same in every range that covers the octave
/// of the sound under which it is set.
pub proof fn lemma_raw_chord_any_cover(
    scale: Scale,
    fewer: nat,
    more: nat,
    rotation: nat,
    sound: Sound,
)
    requires
        sound.octave() <= fewer <= more < usize::MAX,
    ensures
        raw_chord(range_sounds(scale, fewer), rotation, sound) == raw_chord(
            range_sounds(scale, more),
            rotation,
            sound,
        ),
{
    lemma_stepped_back_any_cover(scale, fewer, more, sound, shape(rotation).0);
    lemma_stepped_back_any_cover(scale, fewer, more, sound, shape(rotation).1);
    lemma_stepped_back_any_cover(scale, fewer, more, sound, shape(rotation).2);
}

/// The bass of the chord of a shape lies in no higher an octave than the
/// sound under which the chord is set.
pub proof fn lemma_raw_chord_bass(scale: Scale, octaves: nat, rotation: nat, sound: Sound)
    requires
        octaves < usize::MAX,
        raw_chord(range_sounds(scale, octaves), rotation, sound) is Ok,
    ensures
        raw_chord(range_sounds(scale, octaves), rotation, sound)->Ok_0[0].octave()
            <= sound.octave(),
{
    lemma_stepped_back_lower(scale, octaves, sound, shape(rotation).0);
}

/// The chord of a sound is the same in every range that covers the octave
/// of the sound.
pub proof fn lemma_voiced_any_cover(
    scale: Scale,
    fewer: nat,
    more: nat,
    rotation: nat,
    sound: Sound,
)
    requires
        sound.octave() <= fewer <= more < usize::MAX,
    ensures
        voiced(range_sounds(scale, fewer), scale, rotation, sound) == voiced(
            range_sounds(scale, more),
            scale,
            rotation,
            sound,
        ),
{
    let raw = raw_chord(range_sounds(scale, fewer), rotation, sound);
    lemma_raw_chord_any_cover(scale, fewer, more, rotation, sound);
    if raw is Ok {
        lemma_raw_chord_bass(scale, fewer, rotation, sound);
        lemma_stepped_back_any_cover(scale, fewer, more, raw->Ok_0[0], 2);
    }
}

impl Harmony {
    /// The two states agree in all but the reach of their ranges.
    pub open spec fn alike(self, other: Harmony) -> bool {
        &&& self.melody == other.melody
        &&& self.scale == other.scale
        &&& self.rotation == other.rotation
        &&& self.seed == other.seed
        &&& self.drawn == other.drawn
    }
}

/// A step gives the same chord, or the same error, however far the range
/// reached before it.
pub proof fn lemma_step_reproducible(first: Harmony, second: Harmony, sound: Sound)
    requires
        first.alike(second),
        first.octaves < usize::MAX,
        second.octaves < usize::MAX,
        sound.octave() < usize::MAX,
    ensures
        first.step(sound).0 == second.step(sound).0,
        first.step(sound).1.alike(second.step(sound).1),
        first.step(sound).1.octaves < usize::MAX,
        second.step(sound).1.octaves < usize::MAX,
{
    let octave = sound.octave() as nat;
    let covered = first.covered(octave);
    let other_covered = second.covered(octave);
    lemma_voiced_any_cover(first.scale, octave, covered.octaves, first.rotation, sound);
    lemma_voiced_any_cover(first.scale, octave, other_covered.octaves, first.rotation, sound);
}

/// What a run gives depends on the melody, the scale, the rotation, the seed
/// and the number of flips given so far, and on nothing else: two
/// harmonizers that agree in these give the same chords, or fail with the
/// same error, and agree in them afterwards, however far the range of each
/// reached before.
pub proof fn lemma_reproducible(first: Harmony, second: Harmony, count: nat)
    requires
        first.alike(second),
        first.octaves < usize::MAX,
        second.octaves < usize::MAX,
        KraehenbuehlKnuth::in_reach(first.melody),
        count <= first.melody.len(),
    ensures
        first.harmonized(count).0 == second.harmonized(count).0,
        first.harmonized(count).1.alike(second.harmonized(count).1),
        first.harmonized(count).1.melody == first.melody,
        first.harmonized(count).1.octaves < usize::MAX,
        second.harmonized(count).1.octaves < usize::MAX,
    decreases count,
{
    if count > 0 {
        lemma_reproducible(first, second, (count - 1) as nat);
        let (chords, state) = first.harmonized((count - 1) as nat);
        let (other_chords, other_state) = second.harmonized((count - 1) as nat);
        if chords is Ok {
            lemma_step_reproducible(state, other_state, first.melody[count - 1]);
        }
    }
}

/// A harmonizer keeps its rotation at 0, 1 or 2, and its range within what
/// the machine can hold.
pub proof fn lemma_invariant(harmonizer: KraehenbuehlKnuth)
    requires
        harmonizer.wf(),
    ensures
        harmonizer@.rotation < 3,
        harmonizer@.octaves < usize::MAX,
{
}

} // verus!
