//! Chords: sounds that are played together.

use crate::sound::Sound;
use vstd::prelude::*;
use vstd::std_specs::cmp::PartialEqSpecImpl;

verus! {

/// Implementation of a chord (generalizing intervals).
#[derive(Debug, Eq)]
pub struct Chord {
    sounds: Vec<Sound>,
}

impl Clone for Chord {
    fn clone(&self) -> (copy: Self)
        ensures
            copy@ == self@,
    {
        let mut sounds: Vec<Sound> = Vec::with_capacity(self.sounds.len());
        let mut i: usize = 0;
        while i < self.sounds.len()
            invariant
                i <= self.sounds.len(),
                sounds@ == self.sounds@.take(i as int),
            decreases self.sounds.len() - i,
        {
            sounds.push(self.sounds[i]);
            assert(self.sounds@.take(i + 1) =~= self.sounds@.take(i as int).push(self.sounds[i as int]));
            i += 1;
        }
        assert(self.sounds@.take(i as int) =~= self.sounds@);
        Self { sounds }
    }
}

impl PartialEq for Chord {
    fn eq(&self, other: &Self) -> (equal: bool) {
        if self.sounds.len() != other.sounds.len() {
            return false;
        }
        let mut i: usize = 0;
        while i < self.sounds.len()
            invariant
                i <= self.sounds.len(),
                self.sounds.len() == other.sounds.len(),
                forall|k: int| 0 <= k < i ==> self.sounds[k].same_key(other.sounds[k]),
            decreases self.sounds.len() - i,
        {
            if self.sounds[i] != other.sounds[i] {
                return false;
            }
            i += 1;
        }
        true
    }
}

impl PartialEqSpecImpl for Chord {
    open spec fn obeys_eq_spec() -> bool {
        true
    }

    open spec fn eq_spec(&self, other: &Self) -> bool {
        same_keys(self@, other@)
    }
}

/// The two sequences are as long as each other and hold the same keys,
/// place by place.
pub open spec fn same_keys(sounds: Seq<Sound>, others: Seq<Sound>) -> bool {
    &&& sounds.len() == others.len()
    &&& forall|i: int| 0 <= i < sounds.len() ==> sounds[i].same_key(others[i])
}

impl View for Chord {
    type V = Seq<Sound>;

    closed spec fn view(&self) -> Seq<Sound> {
        self.sounds@
    }
}

/// No sound of the sequence is higher than a later one.
pub open spec fn ascending(sounds: Seq<Sound>) -> bool {
    forall|i: int, j: int| 0 <= i < j < sounds.len() ==> sounds[i].height() <= sounds[j].height()
}

/// The sounds of the sequence that have the given height, in their order.
pub open spec fn sounds_at(sounds: Seq<Sound>, height: int) -> Seq<Sound> {
    sounds.filter(|sound: Sound| sound.height() == height)
}

/// `height` is the height of a sound of the sequence, and none of its sounds
/// is lower.
pub open spec fn is_lowest(sounds: Seq<Sound>, height: int) -> bool {
    &&& exists|i: int| 0 <= i < sounds.len() && sounds[i].height() == height
    &&& forall|i: int| 0 <= i < sounds.len() ==> height <= sounds[i].height()
}

/// `height` is the height of a sound of the sequence, and none of its sounds
/// is higher.
pub open spec fn is_highest(sounds: Seq<Sound>, height: int) -> bool {
    &&& exists|i: int| 0 <= i < sounds.len() && sounds[i].height() == height
    &&& forall|i: int| 0 <= i < sounds.len() ==> sounds[i].height() <= height
}

/// The sequence with its entries at `i - 1` and `i` exchanged.
pub open spec fn neighbours_swapped(sounds: Seq<Sound>, i: int) -> Seq<Sound> {
    sounds.update(i - 1, sounds[i]).update(i, sounds[i - 1])
}

/// Exchanging two neighbours of different height keeps the sounds of the
/// sequence, and keeps the order among those of each height.
pub proof fn lemma_swap_neighbours(sounds: Seq<Sound>, i: int)
    requires
        0 < i < sounds.len(),
        sounds[i - 1].height() != sounds[i].height(),
    ensures
        neighbours_swapped(sounds, i).to_multiset() == sounds.to_multiset(),
        forall|height: int| #[trigger]
            sounds_at(neighbours_swapped(sounds, i), height) == sounds_at(sounds, height),
{
    let swapped = neighbours_swapped(sounds, i);
    let first = sounds[i - 1];
    let second = sounds[i];
    let half = sounds.update(i - 1, second);
    assert(swapped.to_multiset() =~= sounds.to_multiset()) by {
        broadcast use {
            vstd::multiset::group_multiset_properties,
            vstd::multiset::group_multiset_axioms,
        };

        vstd::seq_lib::to_multiset_update(sounds, i - 1, second);
        vstd::seq_lib::to_multiset_update(half, i, first);
        vstd::seq_lib::to_multiset_contains(sounds, first);
        vstd::seq_lib::to_multiset_contains(sounds, second);
        assert(sounds.contains(first));
        assert(sounds.contains(second));
    }
    let before = sounds.take(i - 1);
    let after = sounds.skip(i + 1);
    assert(sounds =~= before + seq![first, second] + after);
    assert(swapped =~= before + seq![second, first] + after);
    assert forall|height: int| #[trigger]
        sounds_at(swapped, height) == sounds_at(sounds, height) by {
        let pred = |sound: Sound| sound.height() == height;
        Seq::filter_distributes_over_add(before, seq![first, second], pred);
        Seq::filter_distributes_over_add(before + seq![first, second], after, pred);
        Seq::filter_distributes_over_add(before, seq![second, first], pred);
        Seq::filter_distributes_over_add(before + seq![second, first], after, pred);
        reveal_with_fuel(Seq::filter, 3);
        let one = seq![first, second];
        let other = seq![second, first];
        assert(one.drop_last() =~= seq![first]);
        assert(other.drop_last() =~= seq![second]);
        assert(seq![first].drop_last() =~= Seq::<Sound>::empty());
        assert(seq![second].drop_last() =~= Seq::<Sound>::empty());
        assert(one.filter(pred) =~= other.filter(pred));
    }
}

impl Chord {
    /// Creates an empty chord with room for `num` sounds.
    pub fn init(num: usize) -> (chord: Self)
        ensures
            chord@ == Seq::<Sound>::empty(),
    {
        Self { sounds: Vec::<Sound>::with_capacity(num) }
    }

    /// Gives the number of sounds in the chord.
    pub fn len(&self) -> (len: usize)
        ensures
            len == self@.len(),
    {
        self.sounds.len()
    }

    /// Indicates whether or not the chord is empty (i.e. does not contain any
    /// sound).
    pub fn is_empty(&self) -> (empty: bool)
        ensures
            empty <==> self@.len() == 0,
    {
        self.len() == 0
    }

    /// Creates a chord from a `Vec` of sounds.
    pub fn from_vec(sounds: Vec<Sound>) -> (chord: Self)
        ensures
            chord@ == sounds@,
    {
        Self { sounds }
    }

    /// Gives a reference to the sounds in the chord.
    pub fn sounds(&self) -> (sounds: &Vec<Sound>)
        ensures
            sounds@ == self@,
    {
        &self.sounds
    }

    /// Sorts the sounds of the chord from lower to higher pitch. Sounds of
    /// the same height keep their order.
    pub fn sort(&mut self)
        ensures
            final(self)@.len() == old(self)@.len(),
            ascending(final(self)@),
            final(self)@.to_multiset() == old(self)@.to_multiset(),
            forall|height: int| #[trigger]
                sounds_at(final(self)@, height) == sounds_at(old(self)@, height),
    {
        let mut i: usize = 1;
        while i < self.sounds.len()
            invariant
                1 <= i,
                self.sounds@.len() == old(self)@.len(),
                forall|a: int, b: int|
                    0 <= a < b < i && b < self.sounds.len() ==> self.sounds[a].height()
                        <= self.sounds[b].height(),
                self.sounds@.to_multiset() == old(self)@.to_multiset(),
                forall|height: int| #[trigger]
                    sounds_at(self.sounds@, height) == sounds_at(old(self)@, height),
            decreases self.sounds.len() - i,
        {
            let mut j: usize = i;
            while j > 0 && self.sounds[j - 1] > self.sounds[j]
                invariant
                    j <= i < self.sounds.len(),
                    self.sounds@.len() == old(self)@.len(),
                    self.sounds@.to_multiset() == old(self)@.to_multiset(),
                    forall|height: int| #[trigger]
                        sounds_at(self.sounds@, height) == sounds_at(old(self)@, height),
                    forall|a: int, b: int|
                        0 <= a < b <= i && a != j && b != j ==> self.sounds[a].height()
                            <= self.sounds[b].height(),
                    forall|b: int| j < b <= i ==> self.sounds[j as int].height() < self.sounds[b].height(),
                decreases j,
            {
                let ghost before = self.sounds@;
                let low = self.sounds[j];
                let high = self.sounds[j - 1];
                self.sounds[j - 1] = low;
                self.sounds[j] = high;
                proof {
                    assert(self.sounds@ =~= neighbours_swapped(before, j as int));
                    lemma_swap_neighbours(before, j as int);
                }
                j -= 1;
            }
            i += 1;
        }
    }

    /// Converts the chord into a chord with sorted sounds from lower to higher
    /// pitch.
    pub fn to_sorted(self) -> (sorted: Self)
        ensures
            sorted@.len() == self@.len(),
            ascending(sorted@),
            sorted@.to_multiset() == self@.to_multiset(),
            forall|height: int| #[trigger] sounds_at(sorted@, height) == sounds_at(self@, height),
    {
        let mut sorted = self;
        sorted.sort();
        sorted
    }

    /// Adds a sound to the chord.
    pub fn add_sound(&mut self, sound: Sound)
        ensures
            final(self)@ == old(self)@.push(sound),
    {
        self.sounds.push(sound);
    }

    /// Gives the interval length (in half tone) between the lowest and highest
    /// pitch sound of the chord, which must not be empty.
    pub fn range(&self) -> (range: usize)
        requires
            self@.len() > 0,
            forall|i: int| 0 <= i < self@.len() ==> self@[i].height() <= usize::MAX,
        ensures
            exists|low: int, high: int|
                is_lowest(self@, low) && is_highest(self@, high) && range == high - low,
    {
        let mut low: usize = self.sounds[0].range();
        let mut high: usize = low;
        let mut i: usize = 1;
        proof {
            assert(self.sounds@.take(1)[0].height() == low);
        }
        while i < self.sounds.len()
            invariant
                1 <= i <= self.sounds.len(),
                forall|k: int| 0 <= k < self.sounds.len() ==> self.sounds[k].height() <= usize::MAX,
                is_lowest(self.sounds@.take(i as int), low as int),
                is_highest(self.sounds@.take(i as int), high as int),
            decreases self.sounds.len() - i,
        {
            let height: usize = self.sounds[i].range();
            let ghost seen = self.sounds@.take(i as int);
            let ghost next = self.sounds@.take(i + 1);
            proof {
                let at_low = choose|k: int| 0 <= k < seen.len() && seen[k].height() == low;
                let at_high = choose|k: int| 0 <= k < seen.len() && seen[k].height() == high;
                assert(next[at_low] == seen[at_low]);
                assert(next[at_high] == seen[at_high]);
                assert(next[i as int].height() == height);
                assert forall|k: int| 0 <= k < next.len() implies (if height < low {
                    height
                } else {
                    low
                }) <= next[k].height() && next[k].height() <= (if height > high {
                    height
                } else {
                    high
                }) by {
                    if k < i {
                        assert(next[k] == seen[k]);
                    }
                }
            }
            if height < low {
                low = height;
            }
            if height > high {
                high = height;
            }
            i += 1;
        }
        proof {
            assert(self.sounds@.take(i as int) =~= self@);
        }
        high - low
    }
}

} // verus!
