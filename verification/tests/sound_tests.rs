use music::{Chord, Interval, Note, Sound};

#[test]
fn test_sound_parts() {
    let sound = Sound::init(Note::G, 3);
    assert_eq!(sound.note(), Note::G);
    assert_eq!(sound.octave(), 3);
}

#[test]
fn test_sound_range() {
    assert_eq!(Sound::init(Note::Gb, 2).range(), 18);
    assert_eq!(Sound::init(Note::C, 2).range(), 12);
    assert_eq!(Sound::init(Note::C, 1).range(), 0);
    assert_eq!(Sound::init(Note::B, 1).wide_range(), 11);
}

#[test]
fn test_sound_octave_is_twelve_semitones() {
    for value in 0..12usize {
        let note = Note::from_usize(value);
        for octave in 1..9usize {
            let low = Sound::init(note, octave);
            let high = Sound::init(note, octave + 1);
            assert_eq!(high.range(), low.range() + 12);
            assert!(low < high);
        }
    }
}

#[test]
fn test_sound_from_range() {
    assert_eq!(Sound::from_range(28), Sound::init(Note::E, 3));
    assert_eq!(Sound::from_range(0), Sound::init(Note::C, 1));
    for range in 0..200usize {
        assert_eq!(Sound::from_range(range).range(), range);
    }
    assert_eq!(Sound::from_range(usize::MAX).octave(), usize::MAX / 12 + 1);
}

#[test]
fn test_sound_order_and_equality() {
    assert_eq!(Sound::init(Note::Cs, 4), Sound::init(Note::Db, 4));
    assert_ne!(Sound::init(Note::Cs, 4), Sound::init(Note::Cs, 5));
    assert!(Sound::init(Note::B, 3) < Sound::init(Note::C, 4));
    assert!(Sound::init(Note::Bs, 4) < Sound::init(Note::Cb, 4));
    assert!(Sound::init(Note::B, usize::MAX - 1) < Sound::init(Note::C, usize::MAX));
    assert!(!(Sound::init(Note::Cs, 4) < Sound::init(Note::Db, 4)));
}

#[test]
fn test_interval_parts_and_distance() {
    let sound_one = Sound::init(Note::A, 1);
    let sound_two = Sound::init(Note::E, 3);
    let interval = Interval::init(sound_one, sound_two);
    assert_eq!(interval.first_sound(), sound_one);
    assert_eq!(interval.second_sound(), sound_two);
    assert_eq!(interval.distance(), 19);
    assert_eq!(Interval::init(sound_two, sound_one).distance(), 19);
    assert_eq!(interval.wide_distance(), 19);
    assert!(interval.is_ascending());
    assert!(!interval.is_in_unison());
}

#[test]
fn test_interval_ascending_and_unison() {
    let interval = Interval::init(Sound::init(Note::As, 3), Sound::init(Note::As, 5));
    assert!(interval.is_ascending());
    let interval = Interval::init(Sound::init(Note::Bb, 4), Sound::init(Note::Bb, 4));
    assert!(!interval.is_ascending());
    assert!(interval.is_in_unison());
    let interval = Interval::init(Sound::init(Note::D, 5), Sound::init(Note::Bb, 4));
    assert!(!interval.is_ascending());
}

#[test]
fn test_interval_order_by_length() {
    let third = Interval::init(Sound::init(Note::C, 2), Sound::init(Note::E, 2));
    let fifth = Interval::init(Sound::init(Note::G, 5), Sound::init(Note::C, 5));
    assert!(third < fifth);
    assert!(!(fifth < third));
    let other_third = Interval::init(Sound::init(Note::A, 3), Sound::init(Note::F, 3));
    assert!(third <= other_third && other_third <= third);
}

#[test]
fn test_chord_container() {
    let chord = Chord::init(2);
    assert!(chord.is_empty());
    assert_eq!(chord.len(), 0);
    let e_1 = Sound::init(Note::E, 1);
    let g_flat_2 = Sound::init(Note::Gb, 2);
    let mut chord = Chord::init(2);
    chord.add_sound(e_1);
    chord.add_sound(g_flat_2);
    assert_eq!(chord.len(), 2);
    assert!(!chord.is_empty());
    assert_eq!(chord.sounds(), &vec![e_1, g_flat_2]);
    assert_eq!(chord, Chord::from_vec(vec![e_1, g_flat_2]));
}

#[test]
fn test_chord_sort() {
    let c_2 = Sound::init(Note::C, 2);
    let e_2 = Sound::init(Note::E, 2);
    let g_2 = Sound::init(Note::G, 2);
    let mut chord = Chord::from_vec(vec![e_2, g_2, c_2]);
    chord.sort();
    assert_eq!(chord, Chord::from_vec(vec![c_2, e_2, g_2]));

    let b_1 = Sound::init(Note::B, 1);
    let d_2 = Sound::init(Note::D, 2);
    let f_3 = Sound::init(Note::F, 3);
    let chord = Chord::from_vec(vec![d_2, b_1, f_3]);
    assert_eq!(chord.to_sorted(), Chord::from_vec(vec![b_1, d_2, f_3]));

    let mut empty = Chord::init(0);
    empty.sort();
    assert!(empty.is_empty());
}

#[test]
fn test_chord_sort_keeps_equal_sounds_in_order() {
    let sharp = Sound::init(Note::Cs, 4);
    let flat = Sound::init(Note::Db, 4);
    let low = Sound::init(Note::C, 4);
    let sorted = Chord::from_vec(vec![flat, sharp, low, flat]).to_sorted();
    let spelled: Vec<String> = sorted.sounds().iter().map(|s| s.note().display()).collect();
    assert_eq!(spelled, vec!["C", "D♭", "C#", "D♭"]);
}

#[test]
fn test_chord_range() {
    let c_1 = Sound::init(Note::C, 1);
    let g_sharp_1 = Sound::init(Note::Gs, 1);
    let e_flat_1 = Sound::init(Note::Eb, 1);
    let chord = Chord::from_vec(vec![c_1, g_sharp_1, e_flat_1]);
    assert_eq!(chord.range(), 8);
    assert_eq!(Chord::from_vec(vec![g_sharp_1]).range(), 0);
}

#[test]
fn test_sound_try_init() {
    assert_eq!(Sound::try_init(Note::C, 2), Ok(Sound::init(Note::C, 2)));
    assert_eq!(Sound::try_init(Note::C, 1).map(|sound| sound.range()), Ok(0));
    assert_eq!(Sound::try_init(Note::C, 0), Err(music::InvalidOctave));
}
