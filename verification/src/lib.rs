//! Notes, sounds, intervals, chords and scales of the piano, and a harmonizer
//! that sets a chord of four voices under each sound of a melody.
//!
//! Every function of the library is verified against its contract. The only
//! code that is taken on trust is the pseudo-random generator behind the coin
//! of the harmonizer: see `harmony::coin`.

pub mod accidental;
pub mod algebra;
pub mod chord;
pub mod harmony;
pub mod interval;
pub mod note;
pub mod piano;
pub mod scale;
pub mod sound;

pub use accidental::{Bemol, Flat, Natural, Sharp};
pub use chord::Chord;
pub use harmony::{KraehenbuehlKnuth, LookupError};
pub use interval::Interval;
pub use note::Note;
pub use scale::{Scale, ScaleType};
pub use sound::{InvalidOctave, Sound};
