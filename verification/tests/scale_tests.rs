use music::{Note, Scale, ScaleType, Sound};

#[test]
fn test_notes() {
    let scale = Scale::init(Note::C, ScaleType::Major);
    assert_eq!(vec![0, 2, 4, 5, 7, 9, 11], scale.usize_notes());
}

#[test]
fn test_sounds() {
    let scale = Scale::init(Note::Bb, ScaleType::Major);
    let expected_scale_sounds = vec![
        Sound::init(Note::Bb, 4),
        Sound::init(Note::C, 5),
        Sound::init(Note::D, 5),
        Sound::init(Note::Eb, 5),
        Sound::init(Note::F, 5),
        Sound::init(Note::G, 5),
        Sound::init(Note::A, 5),
    ];
    assert_eq!(scale.sounds(4), expected_scale_sounds);

    let scale = Scale::init(Note::A, ScaleType::Minor);
    let expected_scale_sounds = vec![
        Sound::init(Note::A, 2),
        Sound::init(Note::B, 2),
        Sound::init(Note::C, 3),
        Sound::init(Note::D, 3),
        Sound::init(Note::E, 3),
        Sound::init(Note::F, 3),
        Sound::init(Note::Gs, 3),
    ];
    assert_eq!(scale.sounds(2), expected_scale_sounds);
}

#[test]
fn test_scale_degrees_of_c_major_and_a_minor() {
    let scale = Scale::init(Note::C, ScaleType::Major);
    assert_eq!(
        scale.notes(),
        vec![Note::C, Note::D, Note::E, Note::F, Note::G, Note::A, Note::B]
    );
    let scale = Scale::init(Note::A, ScaleType::Minor);
    assert_eq!(scale.usize_notes(), vec![9, 11, 0, 2, 4, 5, 8]);
    assert_eq!(
        scale.notes(),
        vec![Note::A, Note::B, Note::C, Note::D, Note::E, Note::F, Note::Gs]
    );
}

#[test]
fn test_scale_default_is_c_major() {
    let scale = Scale::default();
    assert_eq!(scale.usize_notes(), vec![0, 2, 4, 5, 7, 9, 11]);
    assert_eq!(scale.sounds(1)[0], Sound::init(Note::C, 1));
}

#[test]
fn test_scale_sounds_never_descend() {
    for tonic in 0..12usize {
        for scale_type in [ScaleType::Major, ScaleType::Minor] {
            let scale = Scale::init(Note::from_usize(tonic), scale_type);
            let sounds = scale.sounds(3);
            assert_eq!(sounds.len(), 7);
            assert_eq!(sounds[0], Sound::init(Note::from_usize(tonic), 3));
            for pair in sounds.windows(2) {
                assert!(pair[0] < pair[1]);
            }
            assert!(sounds[6].range() - sounds[0].range() == 11);
        }
    }
}

#[test]
fn test_scale_get_sound() {
    let tonic = Sound::init(Note::Bb, 4);
    assert_eq!(Scale::get_sound(tonic, Note::Bb), Sound::init(Note::Bb, 4));
    assert_eq!(Scale::get_sound(tonic, Note::B), Sound::init(Note::B, 4));
    assert_eq!(Scale::get_sound(tonic, Note::A), Sound::init(Note::A, 5));
    assert_eq!(Scale::get_sound(tonic, Note::C), Sound::init(Note::C, 5));
}
