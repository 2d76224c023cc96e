use music::Note;

#[test]
fn test_note_eq_duplicates() {
    assert_eq!(Note::As, Note::Bb);
    assert_eq!(Note::B, Note::Cb);
    assert_eq!(Note::Bs, Note::C);
    assert_eq!(Note::Cs, Note::Db);
    assert_eq!(Note::Ds, Note::Eb);
    assert_eq!(Note::E, Note::Fb);
    assert_eq!(Note::Es, Note::F);
    assert_eq!(Note::Fs, Note::Gb);
    assert_eq!(Note::Gs, Note::Ab);
}

#[test]
fn test_note_from_usize_wraps() {
    for value in 0..12usize {
        assert_eq!(Note::from_usize(value).to_usize(), value);
        assert_eq!(Note::from_usize(value + 12), Note::from_usize(value));
        assert_eq!(Note::from_usize(value + 120).to_usize(), value);
    }
    assert_eq!(Note::from_usize(13), Note::from_usize(1));
    assert_eq!(Note::from_usize(usize::MAX).to_usize(), usize::MAX % 12);
}

#[test]
fn test_note_to_usize_by_spelling() {
    assert_eq!(Note::Bb.to_usize(), 10);
    assert_eq!(Note::Ab.to_usize(), Note::Gs.to_usize());
    assert_eq!(Note::Bs.to_usize(), 0);
    assert_eq!(Note::Cb.to_usize(), 11);
    assert_eq!(Note::Es.to_usize(), 5);
    assert_eq!(Note::Fb.to_usize(), 4);
}

#[test]
fn test_note_scales_from_tonic() {
    assert_eq!(Note::D.major_scale_from_tonic(), vec![2, 4, 6, 7, 9, 11, 1]);
    assert_eq!(Note::A.minor_scale_from_tonic(), vec![9, 11, 0, 2, 4, 5, 8]);
}

#[test]
fn test_note_is_in_scale() {
    for note in [Note::D, Note::E, Note::Fs, Note::G, Note::A, Note::B, Note::Cs] {
        assert!(note.is_in_major_scale(Note::D));
    }
    assert!(!Note::C.is_in_major_scale(Note::D));
    assert!(!Note::F.is_in_major_scale(Note::D));
    for note in [Note::A, Note::B, Note::C, Note::D, Note::E, Note::F, Note::Gs] {
        assert!(note.is_in_minor_scale(Note::A));
    }
    assert!(!Note::G.is_in_minor_scale(Note::A));
    assert!(Note::Ab.test_is_in_scale(vec![3, 8]));
    assert!(!Note::Ab.test_is_in_scale(vec![]));
}

#[test]
fn test_note_display() {
    assert_eq!(Note::C.display(), "C");
    assert_eq!(Note::Cs.display(), "C#");
    assert_eq!(Note::Db.display(), "D♭");
    assert_eq!(Note::Bs.display(), "B#");
    assert_eq!(Note::Cb.display(), "C♭");
}
