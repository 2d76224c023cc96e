use music::{Bemol, Chord, Flat, Interval, Natural, Note, Sharp, Sound};

#[test]
fn test_note_algebra() {
    let note = Note::E;
    let accidental = Bemol::init(1);
    assert_eq!(&accidental + &note, Note::Eb);
    assert_eq!(&note + &accidental, Note::Ds);

    let note = Note::A;
    let accidental = Sharp::init(4);
    assert_eq!(&note + &accidental, Note::Cs);
    assert_eq!(&accidental + &note, Note::Db);
    assert_eq!(note + accidental, Note::Cs);

    let note = Note::C;
    let accidental = Bemol::init(11);
    assert_eq!(&note + &accidental, Note::Db);
    assert_eq!(note + accidental, Note::Cs);

    let note = Note::F;
    let accidental = Natural::init(2);
    assert_eq!(&accidental + &note, note);
    assert_eq!(note + accidental, Note::F);

    let note = Note::Es;
    let accidental = Natural::init(2);
    assert_eq!(&note + &accidental, Note::E);
    assert_eq!(accidental + note, Note::E);
}

#[test]
fn test_sound_algebra() {
    let sound = Sound::init(Note::D, 2);
    let expected_sound = Sound::init(Note::D, 3);
    let accidental = Sharp::init(12);
    assert_eq!(sound + accidental, expected_sound);
    assert_eq!(&sound + &accidental, expected_sound);
    assert_eq!(accidental + sound, expected_sound);
    assert_eq!(&accidental + &sound, expected_sound);

    let sound = Sound::init(Note::Gs, 5);
    let expected_sound = Sound::init(Note::C, 6);
    let accidental = Sharp::init(4);
    assert_eq!(sound + accidental, expected_sound);
    assert_eq!(&sound + &accidental, expected_sound);
    assert_eq!(accidental + sound, expected_sound);
    assert_eq!(&accidental + &sound, expected_sound);

    let sound = Sound::init(Note::Cs, 1);
    let expected_sound = Sound::init(Note::Gb, 1);
    let accidental = Sharp::init(5);
    assert_eq!(sound + accidental, expected_sound);
    assert_eq!(&sound + &accidental, expected_sound);
    assert_eq!(accidental + sound, expected_sound);
    assert_eq!(&accidental + &sound, expected_sound);

    let sound = Sound::init(Note::Cs, 2);
    let expected_sound = Sound::init(Note::G, 1);
    let accidental = Bemol::init(6);
    assert_eq!(sound + accidental, expected_sound);
    assert_eq!(&sound + &accidental, expected_sound);
    assert_eq!(accidental + sound, expected_sound);
    assert_eq!(&accidental + &sound, expected_sound);

    let sound = Sound::init(Note::Ab, 2);
    let expected_sound = sound;
    let accidental = Natural::init(6);
    assert_eq!(sound + accidental, expected_sound);
    assert_eq!(&sound + &accidental, expected_sound);
    assert_eq!(accidental + sound, expected_sound);
    assert_eq!(&accidental + &sound, expected_sound);
}

#[test]
fn test_interval_algebra() {
    let sound_one = Sound::init(Note::A, 3);
    let sound_two = Sound::init(Note::Gs, 2);
    let interval = Interval::init(sound_one, sound_two);
    let accidental = Sharp::init(2);
    let expected_sound_one = Sound::init(Note::B, 3);
    let expected_sound_two = Sound::init(Note::As, 2);
    let expected_interval = Interval::init(expected_sound_one, expected_sound_two);
    assert_eq!(interval + accidental, expected_interval);
    assert_eq!(&interval + &accidental, expected_interval);
    assert_eq!(interval + accidental, expected_interval);
    assert_eq!(&accidental + &interval, expected_interval);

    let accidental = Flat::init(3);
    let expected_sound_one = Sound::init(Note::Fs, 3);
    let expected_sound_two = Sound::init(Note::F, 2);
    let expected_interval = Interval::init(expected_sound_one, expected_sound_two);
    assert_eq!(interval + accidental, expected_interval);
    assert_eq!(&interval + &accidental, expected_interval);
    assert_eq!(interval + accidental, expected_interval);
    assert_eq!(&accidental + &interval, expected_interval);

    let accidental = Natural::init(3);
    let expected_sound_one = sound_one;
    let expected_sound_two = sound_two;
    let expected_interval = Interval::init(expected_sound_one, expected_sound_two);
    assert_eq!(interval + accidental, expected_interval);
    assert_eq!(&interval + &accidental, expected_interval);
    assert_eq!(interval + accidental, expected_interval);
    assert_eq!(&accidental + &interval, expected_interval);
}

#[test]
fn test_chord_algebra() {
    let sounds = vec![Sound::init(Note::E, 2), Sound::init(Note::D, 1)];
    let chord = Chord::from_vec(sounds);
    let expected_chord = Chord::from_vec(vec![Sound::init(Note::Fs, 2), Sound::init(Note::E, 1)]);
    let accidental = Sharp::init(2);
    assert_eq!(&chord + &accidental, expected_chord);
    assert_eq!(&accidental + &chord, expected_chord);
    assert_eq!(chord + accidental, expected_chord);
}

#[test]
fn test_chord_algebra_accidental_first() {
    let chord = Chord::from_vec(vec![Sound::init(Note::E, 2), Sound::init(Note::D, 1)]);
    let lowered = Chord::from_vec(vec![Sound::init(Note::D, 2), Sound::init(Note::C, 1)]);
    assert_eq!(Flat::init(2) + chord.clone(), lowered);
    assert_eq!(Natural::init(1) + chord.clone(), chord);
    assert_eq!(Sharp::init(12) + (Flat::init(12) + Note::G), Note::G);
}

#[test]
fn test_note_natural_by_spelling() {
    let natural = Natural::init(1);
    assert_eq!(natural.add_note(&Note::Cs).to_usize(), 0);
    assert_eq!(natural.add_note(&Note::Db).to_usize(), 2);
    assert_eq!(natural.add_note(&Note::Fb).to_usize(), 5);
    assert_eq!(natural.add_note(&Note::G).to_usize(), 7);
}

#[test]
fn test_note_flat_wraps_below_c() {
    assert_eq!(Flat::init(3).add_note(&Note::Eb), Note::C);
    assert_eq!(Flat::init(1).add_note(&Note::C), Note::B);
    assert_eq!(Flat::init(255).add_note(&Note::C), Note::A);
    assert_eq!(Sharp::init(255).add_note(&Note::C), Note::Eb);
    assert_eq!(Sharp::init(2).add_note(&Note::Ds), Note::F);
}
