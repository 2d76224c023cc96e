use music::piano::{Note, Sound};

#[test]
fn test_piano_note_and_sound() {
    let note = Note::init("do", 0);
    assert_eq!(note.name(), "do");
    assert_eq!(*note.repr(), 0);
    let sound = Sound::init(Note::init("sol", 7), 3);
    assert_eq!(sound.note().name(), "sol");
    assert_eq!(*sound.note().repr(), 7);
    assert_eq!(*sound.octave(), 3);
}
