use music::harmony::{Coin, ScaleRange};
use music::{Chord, KraehenbuehlKnuth, LookupError, Note, Scale, ScaleType, Sound};
use rand::Rng;
use rand_chacha::rand_core::SeedableRng;
use rand_chacha::ChaCha20Rng;

fn c_major() -> Scale {
    Scale::init(Note::C, ScaleType::Major)
}

fn chord_of(sounds: [(Note, usize); 4]) -> Chord {
    Chord::from_vec(sounds.iter().map(|(note, octave)| Sound::init(*note, *octave)).collect())
}

fn flips_of(seed: u64, count: usize) -> Vec<u8> {
    let mut rng = ChaCha20Rng::seed_from_u64(seed);
    (0..count).map(|_| rng.gen_range(0..=1)).collect()
}

#[test]
fn test_kraehenbuel_knuth_with_scale() {
    let scale = Scale::init(Note::Eb, ScaleType::Major);
    let melody = vec![
        Sound::init(Note::C, 5),
        Sound::init(Note::C, 5),
        Sound::init(Note::C, 5),
        Sound::init(Note::Bb, 4),
        Sound::init(Note::Ab, 4),
        Sound::init(Note::C, 5),
        Sound::init(Note::G, 4),
        Sound::init(Note::C, 5),
        Sound::init(Note::Eb, 5),
        Sound::init(Note::C, 5),
        Sound::init(Note::Bb, 4),
        Sound::init(Note::Bb, 4),
        Sound::init(Note::G, 4),
        Sound::init(Note::Ab, 4),
        Sound::init(Note::C, 5),
        Sound::init(Note::Bb, 4),
        Sound::init(Note::C, 5),
        Sound::init(Note::Bb, 4),
        Sound::init(Note::C, 5),
        Sound::init(Note::Eb, 5),
        Sound::init(Note::Eb, 5),
        Sound::init(Note::Bb, 4),
        Sound::init(Note::C, 5),
        Sound::init(Note::Ab, 4),
        Sound::init(Note::Ab, 4),
        Sound::init(Note::C, 5),
        Sound::init(Note::Bb, 4),
    ];
    let mut harmonizer = KraehenbuehlKnuth::init(melody.clone(), Some(scale));
    let harmonics: Vec<Chord> = harmonizer.harmonize().unwrap();
    for chord in &harmonics {
        println!("{:?}", chord);
    }
    assert_eq!(harmonics.len(), melody.len());
    for (chord, sound) in harmonics.iter().zip(melody.iter()) {
        assert_eq!(chord.len(), 4);
        assert_eq!(chord.sounds()[3], *sound);
        for pair in chord.sounds().windows(2) {
            assert!(pair[0] < pair[1]);
        }
    }
}

#[test]
fn test_scale_range_grows_by_octaves() {
    let mut range = ScaleRange::new(Scale::init(Note::Bb, ScaleType::Major));
    assert_eq!(range.covered(), 0);
    assert!(range.sounds().is_empty());
    range.extend_to_cover(2);
    assert_eq!(range.covered(), 2);
    assert_eq!(range.sounds().len(), 14);
    assert_eq!(range.sounds()[0], Sound::init(Note::Bb, 1));
    assert_eq!(range.sounds()[6], Sound::init(Note::A, 2));
    assert_eq!(range.sounds()[7], Sound::init(Note::Bb, 2));
    assert_eq!(range.sounds()[13], Sound::init(Note::A, 3));
    for pair in range.sounds().windows(2) {
        assert!(pair[0] < pair[1]);
    }
}

#[test]
fn test_scale_range_extension_is_idempotent() {
    let mut range = ScaleRange::new(c_major());
    range.extend_to_cover(4);
    let once = range.sounds().clone();
    range.extend_to_cover(4);
    assert_eq!(range.sounds(), &once);
    range.extend_to_cover(2);
    assert_eq!(range.sounds(), &once);
    range.extend_to_cover(0);
    assert_eq!(range.sounds(), &once);
    range.extend_to_cover(5);
    assert_eq!(range.sounds().len(), 35);
    assert_eq!(&range.sounds()[..28], &once[..]);
}

#[test]
fn test_scale_range_locate() {
    let mut range = ScaleRange::new(c_major());
    range.extend_to_cover(4);
    assert_eq!(range.locate(Sound::init(Note::C, 1)), Ok(0));
    assert_eq!(range.locate(Sound::init(Note::C, 4)), Ok(21));
    assert_eq!(range.locate(Sound::init(Note::Bs, 4)), Ok(21));
    assert_eq!(range.locate(Sound::init(Note::B, 4)), Ok(27));
    assert_eq!(range.locate(Sound::init(Note::Cs, 4)), Err(LookupError::PitchNotInScale));
    assert_eq!(range.locate(Sound::init(Note::C, 5)), Err(LookupError::PitchNotInScale));
    assert_eq!(
        ScaleRange::new(c_major()).locate(Sound::init(Note::C, 1)),
        Err(LookupError::PitchNotInScale)
    );
}

#[test]
fn test_scale_range_step_back() {
    let mut range = ScaleRange::new(c_major());
    range.extend_to_cover(4);
    let middle_c = Sound::init(Note::C, 4);
    assert_eq!(range.step_back(middle_c, 0), Ok(middle_c));
    assert_eq!(range.step_back(middle_c, 2), Ok(Sound::init(Note::A, 3)));
    assert_eq!(range.step_back(middle_c, 21), Ok(Sound::init(Note::C, 1)));
    assert_eq!(range.step_back(middle_c, 22), Err(LookupError::RangeUnderflow));
    assert_eq!(
        range.step_back(Sound::init(Note::Fs, 4), 1),
        Err(LookupError::PitchNotInScale)
    );
}

#[test]
fn test_chord_shape_under_middle_c() {
    let mut harmonizer = KraehenbuehlKnuth::init(vec![], Some(c_major()));
    harmonizer.add_octaves(4);
    let middle_c = Sound::init(Note::C, 4);
    assert_eq!(harmonizer.sound_below(middle_c, 11), Ok(Sound::init(Note::F, 2)));
    assert_eq!(harmonizer.sound_below(middle_c, 4), Ok(Sound::init(Note::F, 3)));
    assert_eq!(harmonizer.sound_below(middle_c, 2), Ok(Sound::init(Note::A, 3)));
    assert_eq!(harmonizer.next_position(), 0);
    assert_eq!(
        harmonizer.voices(middle_c),
        Ok(chord_of([(Note::F, 2), (Note::F, 3), (Note::A, 3), (Note::C, 4)]))
    );
}

#[test]
fn test_chord_shapes_follow_the_rotation() {
    let mut harmonizer = KraehenbuehlKnuth::init(vec![], Some(c_major()));
    harmonizer.add_octaves(4);
    let e_4 = Sound::init(Note::E, 4);
    assert_eq!(
        harmonizer.get_chord(e_4, 0),
        Ok(chord_of([(Note::A, 2), (Note::A, 3), (Note::C, 4), (Note::E, 4)]))
    );
    assert_eq!(harmonizer.next_position(), 1);
    assert_eq!(
        harmonizer.get_chord(e_4, 1),
        Ok(chord_of([(Note::E, 3), (Note::G, 3), (Note::B, 3), (Note::E, 4)]))
    );
    assert_eq!(harmonizer.next_position(), 1);
    assert_eq!(
        harmonizer.get_chord(e_4, 0),
        Ok(chord_of([(Note::E, 3), (Note::G, 3), (Note::B, 3), (Note::E, 4)]))
    );
    assert_eq!(harmonizer.next_position(), 2);
    assert_eq!(
        harmonizer.get_chord(e_4, 0),
        Ok(chord_of([(Note::C, 3), (Note::G, 3), (Note::C, 4), (Note::E, 4)]))
    );
    assert_eq!(harmonizer.next_position(), 0);
}

#[test]
fn test_rotation_steps() {
    let mut harmonizer = KraehenbuehlKnuth::init(vec![], None);
    let mut seen = vec![];
    for flip in [0, 0, 0, 1, 1, 0, 1, 0] {
        harmonizer.rotate(flip);
        seen.push(harmonizer.next_position());
    }
    assert_eq!(seen, vec![1, 2, 0, 0, 0, 1, 1, 2]);
}

#[test]
fn test_bass_guard_lowers_the_leading_tone() {
    let mut harmonizer = KraehenbuehlKnuth::init(vec![], Some(c_major()));
    harmonizer.add_octaves(4);
    let f_4 = Sound::init(Note::F, 4);
    assert_eq!(harmonizer.sound_below(f_4, 11), Ok(Sound::init(Note::B, 2)));
    assert_eq!(
        harmonizer.voices(f_4),
        Ok(chord_of([(Note::G, 2), (Note::B, 3), (Note::D, 4), (Note::F, 4)]))
    );

    let mut chord = vec![Sound::init(Note::Cb, 3), Sound::init(Note::D, 4)];
    assert_eq!(harmonizer.adjust_bass(&mut chord), Ok(()));
    assert_eq!(chord, vec![Sound::init(Note::G, 3), Sound::init(Note::D, 4)]);

    let mut chord = vec![Sound::init(Note::A, 2), Sound::init(Note::D, 4)];
    assert_eq!(harmonizer.adjust_bass(&mut chord), Ok(()));
    assert_eq!(chord, vec![Sound::init(Note::A, 2), Sound::init(Note::D, 4)]);

    let mut chord = vec![Sound::init(Note::B, 7)];
    assert_eq!(harmonizer.adjust_bass(&mut chord), Err(LookupError::PitchNotInScale));
    assert_eq!(chord, vec![Sound::init(Note::B, 7)]);
}

#[test]
fn test_bass_guard_in_every_scale() {
    for tonic in 0..12usize {
        for scale_type in [ScaleType::Major, ScaleType::Minor] {
            let scale = Scale::init(Note::from_usize(tonic), scale_type);
            let leading_tone = scale.notes()[6];
            let mut harmonizer = KraehenbuehlKnuth::init(vec![], Some(scale));
            harmonizer.add_octaves(6);
            let mut range = ScaleRange::new(scale);
            range.extend_to_cover(6);
            for place in 11..range.sounds().len() {
                let sound = range.sounds()[place];
                let chord = harmonizer.voices(sound).unwrap();
                let bass = chord.sounds()[0];
                let raw = range.sounds()[place - 11];
                if raw.note() == leading_tone {
                    assert_eq!(bass, range.sounds()[place - 13]);
                    assert_ne!(bass.note(), leading_tone);
                } else {
                    assert_eq!(bass, raw);
                }
            }
        }
    }
}

#[test]
fn test_harmonize_errors() {
    let mut harmonizer =
        KraehenbuehlKnuth::init(vec![Sound::init(Note::Cs, 4)], Some(c_major()));
    assert_eq!(harmonizer.harmonize(), Err(LookupError::PitchNotInScale));

    let mut harmonizer = KraehenbuehlKnuth::init(vec![Sound::init(Note::C, 1)], None);
    assert_eq!(harmonizer.harmonize(), Err(LookupError::RangeUnderflow));

    let mut harmonizer = KraehenbuehlKnuth::init(
        vec![Sound::init(Note::C, 4), Sound::init(Note::C, 2), Sound::init(Note::Fs, 4)],
        None,
    );
    assert_eq!(harmonizer.harmonize(), Err(LookupError::RangeUnderflow));
    assert_eq!(harmonizer.next_position(), 1 - flips_of(0, 1)[0]);

    let mut harmonizer = KraehenbuehlKnuth::init(vec![], Some(c_major()));
    assert_eq!(
        harmonizer.sound_below(Sound::init(Note::C, 4), 1),
        Err(LookupError::PitchNotInScale)
    );
    assert_eq!(
        harmonizer.get_chord(Sound::init(Note::C, 4), 0),
        Err(LookupError::PitchNotInScale)
    );
    assert_eq!(harmonizer.next_position(), 0);
    harmonizer.add_octaves(4);
    assert_eq!(
        harmonizer.get_chord(Sound::init(Note::D, 2), 0),
        Err(LookupError::RangeUnderflow)
    );
    assert_eq!(harmonizer.next_position(), 0);
    assert_eq!(harmonizer.harmonize(), Ok(vec![]));
}

#[test]
fn test_harmonize_two_sounds_with_the_default_scale() {
    let melody = vec![Sound::init(Note::C, 4), Sound::init(Note::E, 4)];
    let mut harmonizer = KraehenbuehlKnuth::init(melody.clone(), None);
    let harmonics = harmonizer.harmonize().unwrap();
    assert_eq!(harmonics.len(), 2);
    assert_eq!(
        harmonics[0],
        chord_of([(Note::F, 2), (Note::F, 3), (Note::A, 3), (Note::C, 4)])
    );
    let flips = flips_of(0, 2);
    let second = if flips[0] == 0 {
        chord_of([(Note::E, 3), (Note::G, 3), (Note::B, 3), (Note::E, 4)])
    } else {
        chord_of([(Note::A, 2), (Note::A, 3), (Note::C, 4), (Note::E, 4)])
    };
    assert_eq!(harmonics[1], second);
    for (chord, sound) in harmonics.iter().zip(melody.iter()) {
        assert_eq!(chord.len(), 4);
        assert_eq!(chord.sounds()[3], *sound);
        for pair in chord.sounds().windows(2) {
            assert!(pair[0] < pair[1]);
        }
    }
    let mut rotation = 0;
    for flip in flips {
        rotation = (rotation + 1 + 2 * flip) % 3;
    }
    assert_eq!(harmonizer.next_position(), rotation);
}

#[test]
fn test_harmonize_is_reproducible() {
    let melody: Vec<Sound> = (0..60).map(|i| Sound::from_range(48 + [0, 2, 4, 5, 7, 9, 11][i % 7])).collect();
    for seed in [0, 1, 7, u64::MAX] {
        let mut first = KraehenbuehlKnuth::init_with_seed(melody.clone(), None, seed);
        let mut second = KraehenbuehlKnuth::init_with_seed(melody.clone(), None, seed);
        let harmonics = first.harmonize().unwrap();
        assert_eq!(harmonics, second.harmonize().unwrap());
        assert_eq!(first.next_position(), second.next_position());

        let mut replayed = KraehenbuehlKnuth::init_with_seed(vec![], None, seed);
        for (sound, (chord, flip)) in
            melody.iter().zip(harmonics.iter().zip(flips_of(seed, melody.len())))
        {
            replayed.add_octaves(sound.octave());
            assert_eq!(replayed.get_chord(*sound, flip).as_ref(), Ok(chord));
        }
        assert_eq!(replayed.next_position(), first.next_position());
    }
}

#[test]
fn test_harmonize_goes_on_where_it_stopped() {
    let melody: Vec<Sound> = (0..20).map(|_| Sound::init(Note::G, 4)).collect();
    let mut once = KraehenbuehlKnuth::init(melody.clone(), None);
    let mut both = once.harmonize().unwrap();
    both.extend(once.harmonize().unwrap());

    let twice: Vec<Sound> = melody.iter().chain(melody.iter()).copied().collect();
    let mut whole = KraehenbuehlKnuth::init(twice, None);
    assert_eq!(whole.harmonize().unwrap(), both);
    assert_eq!(whole.next_position(), once.next_position());
}

#[test]
fn test_coin_follows_its_seed() {
    for seed in [0, 1, 42, u64::MAX] {
        let mut coin = Coin::seeded(seed);
        let flips: Vec<u8> = (0..200).map(|_| coin.flip()).collect();
        assert_eq!(flips, flips_of(seed, 200));
        assert!(flips.iter().all(|flip| *flip <= 1));
        assert!(flips.contains(&0) && flips.contains(&1));
    }
    let mut coin = Coin::seeded(3);
    let mut other = Coin::seeded(4);
    let flips: Vec<u8> = (0..200).map(|_| coin.flip()).collect();
    let other_flips: Vec<u8> = (0..200).map(|_| other.flip()).collect();
    assert_ne!(flips, other_flips);
}

#[test]
fn test_find_scale_gives_the_default() {
    let melody = vec![Sound::init(Note::Fs, 4), Sound::init(Note::Cs, 5)];
    let scale = KraehenbuehlKnuth::find_scale(&melody);
    assert_eq!(scale.usize_notes(), Scale::default().usize_notes());
    assert_eq!(scale.notes()[0], Note::C);
}

#[test]
fn test_melody_in_reach() {
    let melody = vec![Sound::init(Note::C, 4), Sound::init(Note::C, usize::MAX - 1)];
    assert!(KraehenbuehlKnuth::init(melody, None).melody_in_reach());
    let melody = vec![Sound::init(Note::C, 4), Sound::init(Note::C, usize::MAX)];
    assert!(!KraehenbuehlKnuth::init(melody, None).melody_in_reach());
    assert!(KraehenbuehlKnuth::init(vec![], None).melody_in_reach());
}
