//! The sum of an accidental and a note, a sound, an interval or a chord,
//! written with `+`.

use crate::accidental::{Bemol, Natural, Sharp};
use crate::chord::Chord;
use crate::interval::Interval;
use crate::note::Note;
use crate::sound::Sound;
use std::ops::Add;
use vstd::prelude::*;
use vstd::std_specs::ops::AddSpecImpl;

verus! {

/// The sound that lies as many semitones above `sound` as there are sharps.
pub open spec fn sharpened(sound: Sound, sharp: Sharp) -> Sound {
    Sound::at_height(sound.height() + sharp.number())
}

/// The sharps can be added to the sound: the height of the sum fits the
/// machine word.
pub open spec fn can_sharpen(sound: Sound, sharp: Sharp) -> bool {
    sound.height() + sharp.number() <= usize::MAX
}

/// The sound that lies as many semitones below `sound` as there are flats.
pub open spec fn flattened(sound: Sound, bemol: Bemol) -> Sound {
    Sound::at_height(sound.height() - bemol.number())
}

/// The flats can be added to the sound: they do not lead below the lowest
/// C, and the height of the sound fits the machine word.
pub open spec fn can_flatten(sound: Sound, bemol: Bemol) -> bool {
    bemol.number() <= sound.height() <= usize::MAX
}

/// The sound of the same height as `sound`, its note spelled as
/// `Note::from_value` spells it.
pub open spec fn respelled(sound: Sound) -> Sound {
    Sound::at_height(sound.height())
}

/// Naturals can be added to the sound: its height fits the machine word.
pub open spec fn can_respell(sound: Sound) -> bool {
    sound.height() <= usize::MAX
}

/// The interval with both of its sounds raised by the sharps.
pub open spec fn sharpened_interval(interval: Interval, sharp: Sharp) -> Interval {
    Interval::between(
        sharpened(interval.first_sound(), sharp),
        sharpened(interval.second_sound(), sharp),
    )
}

/// The interval with both of its sounds lowered by the flats.
pub open spec fn flattened_interval(interval: Interval, bemol: Bemol) -> Interval {
    Interval::between(
        flattened(interval.first_sound(), bemol),
        flattened(interval.second_sound(), bemol),
    )
}

/// The interval with both of its sounds spelled anew.
pub open spec fn respelled_interval(interval: Interval) -> Interval {
    Interval::between(respelled(interval.first_sound()), respelled(interval.second_sound()))
}

/// The sounds, each raised by the sharps.
pub open spec fn sharpened_sounds(sounds: Seq<Sound>, sharp: Sharp) -> Seq<Sound> {
    Seq::new(sounds.len(), |i: int| sharpened(sounds[i], sharp))
}

/// The sounds, each lowered by the flats.
pub open spec fn flattened_sounds(sounds: Seq<Sound>, bemol: Bemol) -> Seq<Sound> {
    Seq::new(sounds.len(), |i: int| flattened(sounds[i], bemol))
}

/// The sounds, each spelled anew.
pub open spec fn respelled_sounds(sounds: Seq<Sound>) -> Seq<Sound> {
    Seq::new(sounds.len(), |i: int| respelled(sounds[i]))
}

/// The sharps can be added to each of the sounds.
pub open spec fn can_sharpen_all(sounds: Seq<Sound>, sharp: Sharp) -> bool {
    forall|i: int| 0 <= i < sounds.len() ==> can_sharpen(#[trigger] sounds[i], sharp)
}

/// The flats can be added to each of the sounds.
pub open spec fn can_flatten_all(sounds: Seq<Sound>, bemol: Bemol) -> bool {
    forall|i: int| 0 <= i < sounds.len() ==> can_flatten(#[trigger] sounds[i], bemol)
}

/// Naturals can be added to each of the sounds.
pub open spec fn can_respell_all(sounds: Seq<Sound>) -> bool {
    forall|i: int| 0 <= i < sounds.len() ==> can_respell(#[trigger] sounds[i])
}

/// Adds the sharps to each sound of a chord.
fn sharpen_chord(chord: &Chord, sharp: &Sharp) -> (sum: Chord)
    requires
        can_sharpen_all(chord@, *sharp),
    ensures
        sum@ == sharpened_sounds(chord@, *sharp),
{
    let sounds = chord.sounds();
    let mut expected_sounds: Vec<Sound> = Vec::with_capacity(sounds.len());
    let mut i: usize = 0;
    while i < sounds.len()
        invariant
            i <= sounds.len(),
            sounds@ == chord@,
            can_sharpen_all(chord@, *sharp),
            expected_sounds.len() == i,
            forall|k: int| 0 <= k < i ==> expected_sounds[k] == sharpened(chord@[k], *sharp),
        decreases sounds.len() - i,
    {
        expected_sounds.push(&sounds[i] + sharp);
        i += 1;
    }
    assert(expected_sounds@ =~= sharpened_sounds(chord@, *sharp));
    Chord::from_vec(expected_sounds)
}

/// Adds the flats to each sound of a chord.
fn flatten_chord(chord: &Chord, bemol: &Bemol) -> (sum: Chord)
    requires
        can_flatten_all(chord@, *bemol),
    ensures
        sum@ == flattened_sounds(chord@, *bemol),
{
    let sounds = chord.sounds();
    let mut expected_sounds: Vec<Sound> = Vec::with_capacity(sounds.len());
    let mut i: usize = 0;
    while i < sounds.len()
        invariant
            i <= sounds.len(),
            sounds@ == chord@,
            can_flatten_all(chord@, *bemol),
            expected_sounds.len() == i,
            forall|k: int| 0 <= k < i ==> expected_sounds[k] == flattened(chord@[k], *bemol),
        decreases sounds.len() - i,
    {
        expected_sounds.push(&sounds[i] + bemol);
        i += 1;
    }
    assert(expected_sounds@ =~= flattened_sounds(chord@, *bemol));
    Chord::from_vec(expected_sounds)
}

/// Adds naturals to each sound of a chord.
fn respell_chord(chord: &Chord, natural: &Natural) -> (sum: Chord)
    requires
        can_respell_all(chord@),
    ensures
        sum@ == respelled_sounds(chord@),
{
    let sounds = chord.sounds();
    let mut expected_sounds: Vec<Sound> = Vec::with_capacity(sounds.len());
    let mut i: usize = 0;
    while i < sounds.len()
        invariant
            i <= sounds.len(),
            sounds@ == chord@,
            can_respell_all(chord@),
            expected_sounds.len() == i,
            forall|k: int| 0 <= k < i ==> expected_sounds[k] == respelled(chord@[k]),
        decreases sounds.len() - i,
    {
        expected_sounds.push(&sounds[i] + natural);
        i += 1;
    }
    assert(expected_sounds@ =~= respelled_sounds(chord@));
    Chord::from_vec(expected_sounds)
}

// Sharps added to a note raise it by a semitone each. The sum is the same in either
// order, by value and by reference.

impl Add<Sharp> for Note {
    type Output = Note;

    fn add(self, accidental: Sharp) -> (sum: Note) {
        accidental.add_note(&self)
    }
}

impl AddSpecImpl<Sharp> for Note {
    open spec fn obeys_add_spec() -> bool {
        true
    }

    open spec fn add_req(self, accidental: Sharp) -> bool {
        true
    }

    open spec fn add_spec(self, accidental: Sharp) -> Note {
        accidental.raised(self)
    }
}

impl Add<Note> for Sharp {
    type Output = Note;

    fn add(self, note: Note) -> (sum: Note) {
        note + self
    }
}

impl AddSpecImpl<Note> for Sharp {
    open spec fn obeys_add_spec() -> bool {
        true
    }

    open spec fn add_req(self, note: Note) -> bool {
        true
    }

    open spec fn add_spec(self, note: Note) -> Note {
        self.raised(note)
    }
}

impl Add<&Sharp> for &Note {
    type Output = Note;

    fn add(self, accidental: &Sharp) -> (sum: Note) {
        accidental.add_note(self)
    }
}

impl AddSpecImpl<&Sharp> for &Note {
    open spec fn obeys_add_spec() -> bool {
        true
    }

    open spec fn add_req(self, accidental: &Sharp) -> bool {
        true
    }

    open spec fn add_spec(self, accidental: &Sharp) -> Note {
        accidental.raised(*self)
    }
}

impl Add<&Note> for &Sharp {
    type Output = Note;

    fn add(self, note: &Note) -> (sum: Note) {
        note + self
    }
}

impl AddSpecImpl<&Note> for &Sharp {
    open spec fn obeys_add_spec() -> bool {
        true
    }

    open spec fn add_req(self, note: &Note) -> bool {
        true
    }

    open spec fn add_spec(self, note: &Note) -> Note {
        self.raised(*note)
    }
}

// Sharps added to a sound raise it by a semitone each. The sum is the same in either
// order, by value and by reference.

impl Add<Sharp> for Sound {
    type Output = Sound;

    fn add(self, accidental: Sharp) -> (sum: Sound) {
        let expected_range: usize = self.range() + accidental.number();
        Sound::from_range(expected_range)
    }
}

impl AddSpecImpl<Sharp> for Sound {
    open spec fn obeys_add_spec() -> bool {
        true
    }

    open spec fn add_req(self, accidental: Sharp) -> bool {
        can_sharpen(self, accidental)
    }

    open spec fn add_spec(self, accidental: Sharp) -> Sound {
        sharpened(self, accidental)
    }
}

impl Add<Sound> for Sharp {
    type Output = Sound;

    fn add(self, sound: Sound) -> (sum: Sound) {
        sound + self
    }
}

impl AddSpecImpl<Sound> for Sharp {
    open spec fn obeys_add_spec() -> bool {
        true
    }

    open spec fn add_req(self, sound: Sound) -> bool {
        can_sharpen(sound, self)
    }

    open spec fn add_spec(self, sound: Sound) -> Sound {
        sharpened(sound, self)
    }
}

impl Add<&Sharp> for &Sound {
    type Output = Sound;

    fn add(self, accidental: &Sharp) -> (sum: Sound) {
        *self + *accidental
    }
}

impl AddSpecImpl<&Sharp> for &Sound {
    open spec fn obeys_add_spec() -> bool {
        true
    }

    open spec fn add_req(self, accidental: &Sharp) -> bool {
        can_sharpen(*self, *accidental)
    }

    open spec fn add_spec(self, accidental: &Sharp) -> Sound {
        sharpened(*self, *accidental)
    }
}

impl Add<&Sound> for &Sharp {
    type Output = Sound;

    fn add(self, sound: &Sound) -> (sum: Sound) {
        *self + *sound
    }
}

impl AddSpecImpl<&Sound> for &Sharp {
    open spec fn obeys_add_spec() -> bool {
        true
    }

    open spec fn add_req(self, sound: &Sound) -> bool {
        can_sharpen(*sound, *self)
    }

    open spec fn add_spec(self, sound: &Sound) -> Sound {
        sharpened(*sound, *self)
    }
}

// Sharps added to an interval raise both of its sounds. The sum is the same in either
// order, by value and by reference.

impl Add<Sharp> for Interval {
    type Output = Interval;

    fn add(self, accidental: Sharp) -> (sum: Interval) {
        let expected_sound_one = self.first_sound() + accidental;
        let expected_sound_two = self.second_sound() + accidental;
        Interval::init(expected_sound_one, expected_sound_two)
    }
}

impl AddSpecImpl<Sharp> for Interval {
    open spec fn obeys_add_spec() -> bool {
        true
    }

    open spec fn add_req(self, accidental: Sharp) -> bool {
        can_sharpen(self.first_sound(), accidental) && can_sharpen(self.second_sound(), accidental)
    }

    open spec fn add_spec(self, accidental: Sharp) -> Interval {
        sharpened_interval(self, accidental)
    }
}

impl Add<Interval> for Sharp {
    type Output = Interval;

    fn add(self, interval: Interval) -> (sum: Interval) {
        interval + self
    }
}

impl AddSpecImpl<Interval> for Sharp {
    open spec fn obeys_add_spec() -> bool {
        true
    }

    open spec fn add_req(self, interval: Interval) -> bool {
        can_sharpen(interval.first_sound(), self) && can_sharpen(interval.second_sound(), self)
    }

    open spec fn add_spec(self, interval: Interval) -> Interval {
        sharpened_interval(interval, self)
    }
}

impl Add<&Sharp> for &Interval {
    type Output = Interval;

    fn add(self, accidental: &Sharp) -> (sum: Interval) {
        *self + *accidental
    }
}

impl AddSpecImpl<&Sharp> for &Interval {
    open spec fn obeys_add_spec() -> bool {
        true
    }

    open spec fn add_req(self, accidental: &Sharp) -> bool {
        can_sharpen((*self).first_sound(), *accidental) && can_sharpen((*self).second_sound(), *accidental)
    }

    open spec fn add_spec(self, accidental: &Sharp) -> Interval {
        sharpened_interval(*self, *accidental)
    }
}

impl Add<&Interval> for &Sharp {
    type Output = Interval;

    fn add(self, interval: &Interval) -> (sum: Interval) {
        interval + self
    }
}

impl AddSpecImpl<&Interval> for &Sharp {
    open spec fn obeys_add_spec() -> bool {
        true
    }

    open spec fn add_req(self, interval: &Interval) -> bool {
        can_sharpen((*interval).first_sound(), *self) && can_sharpen((*interval).second_sound(), *self)
    }

    open spec fn add_spec(self, interval: &Interval) -> Interval {
        sharpened_interval(*interval, *self)
    }
}

// Sharps added to a chord raise each of its sounds. The sum is the same in either
// order, by value and by reference.

impl Add<Sharp> for Chord {
    type Output = Chord;

    fn add(self, accidental: Sharp) -> (sum: Chord)
        ensures
            sum@ == sharpened_sounds(self@, accidental),
    {
        sharpen_chord(&self, &accidental)
    }
}

/// The sum is stated by the `ensures` of `add`, over the sounds of the chords: a
/// specification cannot make a chord.
impl AddSpecImpl<Sharp> for Chord {
    open spec fn obeys_add_spec() -> bool {
        false
    }

    open spec fn add_req(self, accidental: Sharp) -> bool {
        can_sharpen_all(self@, accidental)
    }

    open spec fn add_spec(self, accidental: Sharp) -> Chord {
        self
    }
}

impl Add<Chord> for Sharp {
    type Output = Chord;

    fn add(self, chord: Chord) -> (sum: Chord)
        ensures
            sum@ == sharpened_sounds(chord@, self),
    {
        chord + self
    }
}

/// The sum is stated by the `ensures` of `add`, over the sounds of the chords: a
/// specification cannot make a chord.
impl AddSpecImpl<Chord> for Sharp {
    open spec fn obeys_add_spec() -> bool {
        false
    }

    open spec fn add_req(self, chord: Chord) -> bool {
        can_sharpen_all(chord@, self)
    }

    open spec fn add_spec(self, chord: Chord) -> Chord {
        chord
    }
}

impl Add<&Sharp> for &Chord {
    type Output = Chord;

    fn add(self, accidental: &Sharp) -> (sum: Chord)
        ensures
            sum@ == sharpened_sounds(self@, *accidental),
    {
        sharpen_chord(self, accidental)
    }
}

/// The sum is stated by the `ensures` of `add`, over the sounds of the chords: a
/// specification cannot make a chord.
impl AddSpecImpl<&Sharp> for &Chord {
    open spec fn obeys_add_spec() -> bool {
        false
    }

    open spec fn add_req(self, accidental: &Sharp) -> bool {
        can_sharpen_all(self@, *accidental)
    }

    open spec fn add_spec(self, accidental: &Sharp) -> Chord {
        *self
    }
}

impl Add<&Chord> for &Sharp {
    type Output = Chord;

    fn add(self, chord: &Chord) -> (sum: Chord)
        ensures
            sum@ == sharpened_sounds(chord@, *self),
    {
        chord + self
    }
}

/// The sum is stated by the `ensures` of `add`, over the sounds of the chords: a
/// specification cannot make a chord.
impl AddSpecImpl<&Chord> for &Sharp {
    open spec fn obeys_add_spec() -> bool {
        false
    }

    open spec fn add_req(self, chord: &Chord) -> bool {
        can_sharpen_all(chord@, *self)
    }

    open spec fn add_spec(self, chord: &Chord) -> Chord {
        *chord
    }
}

// Flats added to a note lower it by a semitone each. The sum is the same in either
// order, by value and by reference.

impl Add<Bemol> for Note {
    type Output = Note;

    fn add(self, accidental: Bemol) -> (sum: Note) {
        accidental.add_note(&self)
    }
}

impl AddSpecImpl<Bemol> for Note {
    open spec fn obeys_add_spec() -> bool {
        true
    }

    open spec fn add_req(self, accidental: Bemol) -> bool {
        true
    }

    open spec fn add_spec(self, accidental: Bemol) -> Note {
        accidental.lowered(self)
    }
}

impl Add<Note> for Bemol {
    type Output = Note;

    fn add(self, note: Note) -> (sum: Note) {
        note + self
    }
}

impl AddSpecImpl<Note> for Bemol {
    open spec fn obeys_add_spec() -> bool {
        true
    }

    open spec fn add_req(self, note: Note) -> bool {
        true
    }

    open spec fn add_spec(self, note: Note) -> Note {
        self.lowered(note)
    }
}

impl Add<&Bemol> for &Note {
    type Output = Note;

    fn add(self, accidental: &Bemol) -> (sum: Note) {
        accidental.add_note(self)
    }
}

impl AddSpecImpl<&Bemol> for &Note {
    open spec fn obeys_add_spec() -> bool {
        true
    }

    open spec fn add_req(self, accidental: &Bemol) -> bool {
        true
    }

    open spec fn add_spec(self, accidental: &Bemol) -> Note {
        accidental.lowered(*self)
    }
}

impl Add<&Note> for &Bemol {
    type Output = Note;

    fn add(self, note: &Note) -> (sum: Note) {
        note + self
    }
}

impl AddSpecImpl<&Note> for &Bemol {
    open spec fn obeys_add_spec() -> bool {
        true
    }

    open spec fn add_req(self, note: &Note) -> bool {
        true
    }

    open spec fn add_spec(self, note: &Note) -> Note {
        self.lowered(*note)
    }
}

// Flats added to a sound lower it by a semitone each. The sum is the same in either
// order, by value and by reference.

impl Add<Bemol> for Sound {
    type Output = Sound;

    fn add(self, accidental: Bemol) -> (sum: Sound) {
        let expected_range: usize = self.range() - accidental.number();
        Sound::from_range(expected_range)
    }
}

impl AddSpecImpl<Bemol> for Sound {
    open spec fn obeys_add_spec() -> bool {
        true
    }

    open spec fn add_req(self, accidental: Bemol) -> bool {
        can_flatten(self, accidental)
    }

    open spec fn add_spec(self, accidental: Bemol) -> Sound {
        flattened(self, accidental)
    }
}

impl Add<Sound> for Bemol {
    type Output = Sound;

    fn add(self, sound: Sound) -> (sum: Sound) {
        sound + self
    }
}

impl AddSpecImpl<Sound> for Bemol {
    open spec fn obeys_add_spec() -> bool {
        true
    }

    open spec fn add_req(self, sound: Sound) -> bool {
        can_flatten(sound, self)
    }

    open spec fn add_spec(self, sound: Sound) -> Sound {
        flattened(sound, self)
    }
}

impl Add<&Bemol> for &Sound {
    type Output = Sound;

    fn add(self, accidental: &Bemol) -> (sum: Sound) {
        *self + *accidental
    }
}

impl AddSpecImpl<&Bemol> for &Sound {
    open spec fn obeys_add_spec() -> bool {
        true
    }

    open spec fn add_req(self, accidental: &Bemol) -> bool {
        can_flatten(*self, *accidental)
    }

    open spec fn add_spec(self, accidental: &Bemol) -> Sound {
        flattened(*self, *accidental)
    }
}

impl Add<&Sound> for &Bemol {
    type Output = Sound;

    fn add(self, sound: &Sound) -> (sum: Sound) {
        *self + *sound
    }
}

impl AddSpecImpl<&Sound> for &Bemol {
    open spec fn obeys_add_spec() -> bool {
        true
    }

    open spec fn add_req(self, sound: &Sound) -> bool {
        can_flatten(*sound, *self)
    }

    open spec fn add_spec(self, sound: &Sound) -> Sound {
        flattened(*sound, *self)
    }
}

// Flats added to an interval lower both of its sounds. The sum is the same in either
// order, by value and by reference.

impl Add<Bemol> for Interval {
    type Output = Interval;

    fn add(self, accidental: Bemol) -> (sum: Interval) {
        let expected_sound_one = self.first_sound() + accidental;
        let expected_sound_two = self.second_sound() + accidental;
        Interval::init(expected_sound_one, expected_sound_two)
    }
}

impl AddSpecImpl<Bemol> for Interval {
    open spec fn obeys_add_spec() -> bool {
        true
    }

    open spec fn add_req(self, accidental: Bemol) -> bool {
        can_flatten(self.first_sound(), accidental) && can_flatten(self.second_sound(), accidental)
    }

    open spec fn add_spec(self, accidental: Bemol) -> Interval {
        flattened_interval(self, accidental)
    }
}

impl Add<Interval> for Bemol {
    type Output = Interval;

    fn add(self, interval: Interval) -> (sum: Interval) {
        interval + self
    }
}

impl AddSpecImpl<Interval> for Bemol {
    open spec fn obeys_add_spec() -> bool {
        true
    }

    open spec fn add_req(self, interval: Interval) -> bool {
        can_flatten(interval.first_sound(), self) && can_flatten(interval.second_sound(), self)
    }

    open spec fn add_spec(self, interval: Interval) -> Interval {
        flattened_interval(interval, self)
    }
}

impl Add<&Bemol> for &Interval {
    type Output = Interval;

    fn add(self, accidental: &Bemol) -> (sum: Interval) {
        *self + *accidental
    }
}

impl AddSpecImpl<&Bemol> for &Interval {
    open spec fn obeys_add_spec() -> bool {
        true
    }

    open spec fn add_req(self, accidental: &Bemol) -> bool {
        can_flatten((*self).first_sound(), *accidental) && can_flatten((*self).second_sound(), *accidental)
    }

    open spec fn add_spec(self, accidental: &Bemol) -> Interval {
        flattened_interval(*self, *accidental)
    }
}

impl Add<&Interval> for &Bemol {
    type Output = Interval;

    fn add(self, interval: &Interval) -> (sum: Interval) {
        interval + self
    }
}

impl AddSpecImpl<&Interval> for &Bemol {
    open spec fn obeys_add_spec() -> bool {
        true
    }

    open spec fn add_req(self, interval: &Interval) -> bool {
        can_flatten((*interval).first_sound(), *self) && can_flatten((*interval).second_sound(), *self)
    }

    open spec fn add_spec(self, interval: &Interval) -> Interval {
        flattened_interval(*interval, *self)
    }
}

// Flats added to a chord lower each of its sounds. The sum is the same in either
// order, by value and by reference.

impl Add<Bemol> for Chord {
    type Output = Chord;

    fn add(self, accidental: Bemol) -> (sum: Chord)
        ensures
            sum@ == flattened_sounds(self@, accidental),
    {
        flatten_chord(&self, &accidental)
    }
}

/// The sum is stated by the `ensures` of `add`, over the sounds of the chords: a
/// specification cannot make a chord.
impl AddSpecImpl<Bemol> for Chord {
    open spec fn obeys_add_spec() -> bool {
        false
    }

    open spec fn add_req(self, accidental: Bemol) -> bool {
        can_flatten_all(self@, accidental)
    }

    open spec fn add_spec(self, accidental: Bemol) -> Chord {
        self
    }
}

impl Add<Chord> for Bemol {
    type Output = Chord;

    fn add(self, chord: Chord) -> (sum: Chord)
        ensures
            sum@ == flattened_sounds(chord@, self),
    {
        chord + self
    }
}

/// The sum is stated by the `ensures` of `add`, over the sounds of the chords: a
/// specification cannot make a chord.
impl AddSpecImpl<Chord> for Bemol {
    open spec fn obeys_add_spec() -> bool {
        false
    }

    open spec fn add_req(self, chord: Chord) -> bool {
        can_flatten_all(chord@, self)
    }

    open spec fn add_spec(self, chord: Chord) -> Chord {
        chord
    }
}

impl Add<&Bemol> for &Chord {
    type Output = Chord;

    fn add(self, accidental: &Bemol) -> (sum: Chord)
        ensures
            sum@ == flattened_sounds(self@, *accidental),
    {
        flatten_chord(self, accidental)
    }
}

/// The sum is stated by the `ensures` of `add`, over the sounds of the chords: a
/// specification cannot make a chord.
impl AddSpecImpl<&Bemol> for &Chord {
    open spec fn obeys_add_spec() -> bool {
        false
    }

    open spec fn add_req(self, accidental: &Bemol) -> bool {
        can_flatten_all(self@, *accidental)
    }

    open spec fn add_spec(self, accidental: &Bemol) -> Chord {
        *self
    }
}

impl Add<&Chord> for &Bemol {
    type Output = Chord;

    fn add(self, chord: &Chord) -> (sum: Chord)
        ensures
            sum@ == flattened_sounds(chord@, *self),
    {
        chord + self
    }
}

/// The sum is stated by the `ensures` of `add`, over the sounds of the chords: a
/// specification cannot make a chord.
impl AddSpecImpl<&Chord> for &Bemol {
    open spec fn obeys_add_spec() -> bool {
        false
    }

    open spec fn add_req(self, chord: &Chord) -> bool {
        can_flatten_all(chord@, *self)
    }

    open spec fn add_spec(self, chord: &Chord) -> Chord {
        *chord
    }
}

// Naturals added to a note strip the sharp or flat from its spelling. The sum is the same in either
// order, by value and by reference.

impl Add<Natural> for Note {
    type Output = Note;

    fn add(self, accidental: Natural) -> (sum: Note) {
        accidental.add_note(&self)
    }
}

impl AddSpecImpl<Natural> for Note {
    open spec fn obeys_add_spec() -> bool {
        true
    }

    open spec fn add_req(self, accidental: Natural) -> bool {
        true
    }

    open spec fn add_spec(self, accidental: Natural) -> Note {
        Natural::plain(self)
    }
}

impl Add<Note> for Natural {
    type Output = Note;

    fn add(self, note: Note) -> (sum: Note) {
        note + self
    }
}

impl AddSpecImpl<Note> for Natural {
    open spec fn obeys_add_spec() -> bool {
        true
    }

    open spec fn add_req(self, note: Note) -> bool {
        true
    }

    open spec fn add_spec(self, note: Note) -> Note {
        Natural::plain(note)
    }
}

impl Add<&Natural> for &Note {
    type Output = Note;

    fn add(self, accidental: &Natural) -> (sum: Note) {
        accidental.add_note(self)
    }
}

impl AddSpecImpl<&Natural> for &Note {
    open spec fn obeys_add_spec() -> bool {
        true
    }

    open spec fn add_req(self, accidental: &Natural) -> bool {
        true
    }

    open spec fn add_spec(self, accidental: &Natural) -> Note {
        Natural::plain(*self)
    }
}

impl Add<&Note> for &Natural {
    type Output = Note;

    fn add(self, note: &Note) -> (sum: Note) {
        note + self
    }
}

impl AddSpecImpl<&Note> for &Natural {
    open spec fn obeys_add_spec() -> bool {
        true
    }

    open spec fn add_req(self, note: &Note) -> bool {
        true
    }

    open spec fn add_spec(self, note: &Note) -> Note {
        Natural::plain(*note)
    }
}

// Naturals added to a sound keep its height and spell its note anew. The sum is the same in either
// order, by value and by reference.

impl Add<Natural> for Sound {
    type Output = Sound;

    fn add(self, accidental: Natural) -> (sum: Sound) {
        let expected_range: usize = self.range();
        Sound::from_range(expected_range)
    }
}

impl AddSpecImpl<Natural> for Sound {
    open spec fn obeys_add_spec() -> bool {
        true
    }

    open spec fn add_req(self, accidental: Natural) -> bool {
        can_respell(self)
    }

    open spec fn add_spec(self, accidental: Natural) -> Sound {
        respelled(self)
    }
}

impl Add<Sound> for Natural {
    type Output = Sound;

    fn add(self, sound: Sound) -> (sum: Sound) {
        sound + self
    }
}

impl AddSpecImpl<Sound> for Natural {
    open spec fn obeys_add_spec() -> bool {
        true
    }

    open spec fn add_req(self, sound: Sound) -> bool {
        can_respell(sound)
    }

    open spec fn add_spec(self, sound: Sound) -> Sound {
        respelled(sound)
    }
}

impl Add<&Natural> for &Sound {
    type Output = Sound;

    fn add(self, accidental: &Natural) -> (sum: Sound) {
        *self + *accidental
    }
}

impl AddSpecImpl<&Natural> for &Sound {
    open spec fn obeys_add_spec() -> bool {
        true
    }

    open spec fn add_req(self, accidental: &Natural) -> bool {
        can_respell(*self)
    }

    open spec fn add_spec(self, accidental: &Natural) -> Sound {
        respelled(*self)
    }
}

impl Add<&Sound> for &Natural {
    type Output = Sound;

    fn add(self, sound: &Sound) -> (sum: Sound) {
        *self + *sound
    }
}

impl AddSpecImpl<&Sound> for &Natural {
    open spec fn obeys_add_spec() -> bool {
        true
    }

    open spec fn add_req(self, sound: &Sound) -> bool {
        can_respell(*sound)
    }

    open spec fn add_spec(self, sound: &Sound) -> Sound {
        respelled(*sound)
    }
}

// Naturals added to an interval spell both of its sounds anew. The sum is the same in either
// order, by value and by reference.

impl Add<Natural> for Interval {
    type Output = Interval;

    fn add(self, accidental: Natural) -> (sum: Interval) {
        let expected_sound_one = self.first_sound() + accidental;
        let expected_sound_two = self.second_sound() + accidental;
        Interval::init(expected_sound_one, expected_sound_two)
    }
}

impl AddSpecImpl<Natural> for Interval {
    open spec fn obeys_add_spec() -> bool {
        true
    }

    open spec fn add_req(self, accidental: Natural) -> bool {
        can_respell(self.first_sound()) && can_respell(self.second_sound())
    }

    open spec fn add_spec(self, accidental: Natural) -> Interval {
        respelled_interval(self)
    }
}

impl Add<Interval> for Natural {
    type Output = Interval;

    fn add(self, interval: Interval) -> (sum: Interval) {
        interval + self
    }
}

impl AddSpecImpl<Interval> for Natural {
    open spec fn obeys_add_spec() -> bool {
        true
    }

    open spec fn add_req(self, interval: Interval) -> bool {
        can_respell(interval.first_sound()) && can_respell(interval.second_sound())
    }

    open spec fn add_spec(self, interval: Interval) -> Interval {
        respelled_interval(interval)
    }
}

impl Add<&Natural> for &Interval {
    type Output = Interval;

    fn add(self, accidental: &Natural) -> (sum: Interval) {
        *self + *accidental
    }
}

impl AddSpecImpl<&Natural> for &Interval {
    open spec fn obeys_add_spec() -> bool {
        true
    }

    open spec fn add_req(self, accidental: &Natural) -> bool {
        can_respell((*self).first_sound()) && can_respell((*self).second_sound())
    }

    open spec fn add_spec(self, accidental: &Natural) -> Interval {
        respelled_interval(*self)
    }
}

impl Add<&Interval> for &Natural {
    type Output = Interval;

    fn add(self, interval: &Interval) -> (sum: Interval) {
        interval + self
    }
}

impl AddSpecImpl<&Interval> for &Natural {
    open spec fn obeys_add_spec() -> bool {
        true
    }

    open spec fn add_req(self, interval: &Interval) -> bool {
        can_respell((*interval).first_sound()) && can_respell((*interval).second_sound())
    }

    open spec fn add_spec(self, interval: &Interval) -> Interval {
        respelled_interval(*interval)
    }
}

// Naturals added to a chord spell each of its sounds anew. The sum is the same in either
// order, by value and by reference.

impl Add<Natural> for Chord {
    type Output = Chord;

    fn add(self, accidental: Natural) -> (sum: Chord)
        ensures
            sum@ == respelled_sounds(self@),
    {
        respell_chord(&self, &accidental)
    }
}

/// The sum is stated by the `ensures` of `add`, over the sounds of the chords: a
/// specification cannot make a chord.
impl AddSpecImpl<Natural> for Chord {
    open spec fn obeys_add_spec() -> bool {
        false
    }

    open spec fn add_req(self, accidental: Natural) -> bool {
        can_respell_all(self@)
    }

    open spec fn add_spec(self, accidental: Natural) -> Chord {
        self
    }
}

impl Add<Chord> for Natural {
    type Output = Chord;

    fn add(self, chord: Chord) -> (sum: Chord)
        ensures
            sum@ == respelled_sounds(chord@),
    {
        chord + self
    }
}

/// The sum is stated by the `ensures` of `add`, over the sounds of the chords: a
/// specification cannot make a chord.
impl AddSpecImpl<Chord> for Natural {
    open spec fn obeys_add_spec() -> bool {
        false
    }

    open spec fn add_req(self, chord: Chord) -> bool {
        can_respell_all(chord@)
    }

    open spec fn add_spec(self, chord: Chord) -> Chord {
        chord
    }
}

impl Add<&Natural> for &Chord {
    type Output = Chord;

    fn add(self, accidental: &Natural) -> (sum: Chord)
        ensures
            sum@ == respelled_sounds(self@),
    {
        respell_chord(self, accidental)
    }
}

/// The sum is stated by the `ensures` of `add`, over the sounds of the chords: a
/// specification cannot make a chord.
impl AddSpecImpl<&Natural> for &Chord {
    open spec fn obeys_add_spec() -> bool {
        false
    }

    open spec fn add_req(self, accidental: &Natural) -> bool {
        can_respell_all(self@)
    }

    open spec fn add_spec(self, accidental: &Natural) -> Chord {
        *self
    }
}

impl Add<&Chord> for &Natural {
    type Output = Chord;

    fn add(self, chord: &Chord) -> (sum: Chord)
        ensures
            sum@ == respelled_sounds(chord@),
    {
        chord + self
    }
}

/// The sum is stated by the `ensures` of `add`, over the sounds of the chords: a
/// specification cannot make a chord.
impl AddSpecImpl<&Chord> for &Natural {
    open spec fn obeys_add_spec() -> bool {
        false
    }

    open spec fn add_req(self, chord: &Chord) -> bool {
        can_respell_all(chord@)
    }

    open spec fn add_spec(self, chord: &Chord) -> Chord {
        *chord
    }
}

} // verus!
