//! An index permutation laid over an ordered collection.
//!
//! The overlay owns the base collection and, while shuffled, a permutation
//! that maps each view index to a base index. Unshuffled, the view is the base
//! collection itself.

use rand::seq::SliceRandom;
use vstd::prelude::*;

verus! {

/// `positions` holds every index below `n` exactly once.
pub open spec fn is_permutation(positions: Seq<u32>, n: nat) -> bool {
    &&& positions.len() == n
    &&& positions.no_duplicates()
    &&& forall|i: int| 0 <= i < positions.len() ==> (#[trigger] positions[i]) < n
    &&& forall|k: u32| k < n ==> #[trigger] positions.contains(k)
}

/// `positions` maps every index below its length to itself.
pub open spec fn is_identity(positions: Seq<u32>) -> bool {
    forall|i: int| 0 <= i < positions.len() ==> (#[trigger] positions[i]) == i
}

/// Any rearrangement of the identity mapping on `n` indices is a permutation
/// of them.
pub proof fn lemma_rearranged_identity(before: Seq<u32>, after: Seq<u32>, n: nat)
    requires
        before.len() == n,
        is_identity(before),
        after.to_multiset() == before.to_multiset(),
    ensures
        is_permutation(after, n),
{
    before.to_multiset_ensures();
    after.to_multiset_ensures();
    assert(before.no_duplicates());
    before.lemma_multiset_has_no_duplicates();
    after.lemma_multiset_has_no_duplicates_conv();
    assert forall|i: int| 0 <= i < after.len() implies (#[trigger] after[i]) < n by {
        let x = after[i];
        assert(after.contains(x));
        assert(before.to_multiset().count(x) > 0);
        assert(before.contains(x));
        let k = choose|k: int| 0 <= k < before.len() && before[k] == x;
        assert(before[k] == k);
    }
    assert forall|k: u32| k < n implies #[trigger] after.contains(k) by {
        assert(before[k as int] == k);
        assert(before.contains(k));
        assert(before.to_multiset().count(k) > 0);
    }
}

/// Shuffles `positions` in place with `rand::seq::SliceRandom::shuffle`,
/// drawing from the generator that `rand::thread_rng` hands out.
///
/// Trusted, not proved: the shuffle walks the slice once and swaps each
/// element with one at an index not above its own, so whatever order comes
/// back holds the same values, each as often as before. Nothing is claimed
/// of which order comes back. The generator is seeded from the operating
/// system when a thread first asks for it, and `rand` panics if that fails.
#[verifier::external_body]
fn shuffle_positions(positions: &mut Vec<u32>)
    ensures
        final(positions)@.to_multiset() == old(positions)@.to_multiset(),
{
    let mut rng = rand::thread_rng();
    positions.shuffle(&mut rng);
}

/// A change of a collection: at `position`, `removed` items left and `added`
/// items came.
#[derive(Clone, Copy, Debug, PartialEq, Eq, Structural)]
pub struct ItemsChanged {
    pub position: u32,
    pub removed: u32,
    pub added: u32,
}

/// A view of an ordered collection that is either the collection itself or a
/// random permutation of it.
pub struct ShuffleListModel<T> {
    /// The base collection, if one is bound.
    pub model: Option<Vec<T>>,
    /// While shuffled, the base index of each view index.
    pub shuffle: Option<Vec<u32>>,
}

impl<T> View for ShuffleListModel<T> {
    type V = Seq<T>;

    /// The items in view order.
    open spec fn view(&self) -> Seq<T> {
        match self.model {
            None => Seq::empty(),
            Some(model) => match self.shuffle {
                None => model@,
                Some(shuffle) => Seq::new(
                    shuffle@.len(),
                    |i: int| model@[shuffle@[i] as int],
                ),
            },
        }
    }
}

impl<T> Default for ShuffleListModel<T> {
    fn default() -> (overlay: Self)
        ensures
            overlay.wf(),
            overlay.model is None,
            overlay.shuffle is None,
    {
        ShuffleListModel { model: None, shuffle: None }
    }
}

impl<T> ShuffleListModel<T> {
    /// The items of the base collection in storage order; none where no
    /// collection is bound.
    pub open spec fn base(&self) -> Seq<T> {
        match self.model {
            None => Seq::empty(),
            Some(model) => model@,
        }
    }

    /// The overlay is well formed: the base collection can be indexed by
    /// `u32`, and a permutation is present only over a bound collection and
    /// then permutes exactly its indices.
    pub open spec fn wf(&self) -> bool {
        &&& self.base().len() <= u32::MAX
        &&& self.shuffle is Some ==> self.model is Some && is_permutation(
            self.shuffle.unwrap()@,
            self.base().len(),
        )
    }

    /// The base index that the view index `position` stands for.
    pub open spec fn base_position(&self, position: u32) -> Option<u32> {
        if position < self@.len() {
            match self.shuffle {
                None => Some(position),
                Some(shuffle) => Some(shuffle@[position as int]),
            }
        } else {
            None
        }
    }

    /// Some view index stands for the base index `index`.
    pub open spec fn shows(&self, index: u32) -> bool {
        exists|i: u32| i < self@.len() && #[trigger] self.base_position(i) == Some(index)
    }

    /// The change that observers of the overlay see when the base collection
    /// reports the change `(position, removed, added)`: while shuffled the
    /// position is taken through the permutation, and a position without an
    /// entry there reports nothing; unshuffled the change passes unmodified.
    pub open spec fn remapped(&self, position: u32, removed: u32, added: u32) -> Option<
        ItemsChanged,
    > {
        match self.shuffle {
            None => Some(ItemsChanged { position, removed, added }),
            Some(shuffle) => if position < shuffle@.len() {
                Some(ItemsChanged { position: shuffle@[position as int], removed, added })
            } else {
                None
            },
        }
    }

    /// The change that tells observers that every item may have moved.
    pub open spec fn all_changed(&self) -> Option<ItemsChanged> {
        match self.model {
            None => None,
            Some(model) => Some(
                ItemsChanged {
                    position: 0,
                    removed: model@.len() as u32,
                    added: model@.len() as u32,
                },
            ),
        }
    }

    /// An unshuffled overlay over `model`.
    pub fn new(model: Option<Vec<T>>) -> (overlay: Self)
        requires
            model is Some ==> model.unwrap()@.len() <= u32::MAX,
        ensures
            overlay.wf(),
            overlay.model == model,
            overlay.shuffle is None,
    {
        ShuffleListModel { model, shuffle: None }
    }

    /// Whether a permutation is active.
    pub fn shuffled(&self) -> (shuffled: bool)
        ensures
            shuffled == (self.shuffle is Some),
    {
        self.shuffle.is_some()
    }

    /// The number of items.
    pub fn n_items(&self) -> (n: u32)
        requires
            self.wf(),
        ensures
            n == self@.len(),
            n == self.base().len(),
    {
        match &self.model {
            Some(model) => model.len() as u32,
            None => 0,
        }
    }

    /// The base index of the item at the view index `position`; nothing beyond
    /// the end.
    pub fn base_index(&self, position: u32) -> (index: Option<u32>)
        requires
            self.wf(),
        ensures
            index == self.base_position(position),
            index is Some ==> index.unwrap() < self.base().len(),
    {
        match &self.model {
            Some(model) => match &self.shuffle {
                Some(shuffle) => {
                    if (position as usize) < shuffle.len() {
                        Some(shuffle[position as usize])
                    } else {
                        None
                    }
                },
                None => {
                    if (position as usize) < model.len() {
                        Some(position)
                    } else {
                        None
                    }
                },
            },
            None => None,
        }
    }

    /// The item at the view index `position`; nothing beyond the end.
    pub fn item(&self, position: u32) -> (item: Option<&T>)
        requires
            self.wf(),
        ensures
            position < self@.len() ==> item == Some(&self@[position as int]),
            position >= self@.len() ==> item is None,
    {
        match self.base_index(position) {
            Some(index) => match &self.model {
                Some(model) => Some(&model[index as usize]),
                None => None,
            },
            None => None,
        }
    }

    /// Drops the permutation, so that the view is the base collection again.
    /// Returns the change to report to observers: none where no collection is
    /// bound, in which case nothing happens.
    pub fn unshuffle(&mut self) -> (change: Option<ItemsChanged>)
        requires
            old(self).wf(),
        ensures
            final(self).wf(),
            final(self).model == old(self).model,
            final(self).shuffle is None,
            final(self)@ == old(self).base(),
            change == old(self).all_changed(),
    {
        match &self.model {
            Some(model) => {
                let n = model.len() as u32;
                self.shuffle = None;
                Some(ItemsChanged { position: 0, removed: n, added: n })
            },
            None => None,
        }
    }

    /// Draws a fresh random permutation of the base collection's indices.
    /// Returns the change to report to observers. Where no collection is
    /// bound the overlay ends unshuffled and reports nothing.
    pub fn reshuffle(&mut self) -> (change: Option<ItemsChanged>)
        requires
            old(self).wf(),
        ensures
            final(self).wf(),
            final(self).model == old(self).model,
            final(self).shuffle is Some == old(self).model is Some,
            final(self).shuffle is Some ==> is_permutation(
                final(self).shuffle.unwrap()@,
                old(self).base().len(),
            ),
            change == old(self).all_changed(),
    {
        match &self.model {
            Some(model) => {
                let n = model.len() as u32;
                let mut positions: Vec<u32> = Vec::new();
                let mut i: u32 = 0;
                while i < n
                    invariant
                        i <= n,
                        positions@.len() == i,
                        is_identity(positions@),
                    decreases n - i,
                {
                    positions.push(i);
                    i = i + 1;
                }
                let ghost before = positions@;
                shuffle_positions(&mut positions);
                proof {
                    lemma_rearranged_identity(before, positions@, n as nat);
                }
                self.shuffle = Some(positions);
                Some(ItemsChanged { position: 0, removed: n, added: n })
            },
            None => {
                self.shuffle = None;
                None
            },
        }
    }

    /// Binds another base collection. The base collection changes only while
    /// the overlay is unshuffled.
    pub fn set_model(&mut self, model: Option<Vec<T>>)
        requires
            old(self).shuffle is None,
            model is Some ==> model.unwrap()@.len() <= u32::MAX,
        ensures
            final(self).wf(),
            final(self).model == model,
            final(self).shuffle is None,
    {
        self.model = model;
    }

    /// Takes a change `(position, removed, added)` that the base collection
    /// reports to the change that observers of the overlay are told.
    pub fn items_changed(&self, position: u32, removed: u32, added: u32) -> (change: Option<
        ItemsChanged,
    >)
        ensures
            change == self.remapped(position, removed, added),
    {
        match &self.shuffle {
            Some(shuffle) => {
                if (position as usize) < shuffle.len() {
                    Some(ItemsChanged { position: shuffle[position as usize], removed, added })
                } else {
                    None
                }
            },
            None => Some(ItemsChanged { position, removed, added }),
        }
    }
}

/// Once unshuffled, the overlay shows at every index the item that the base
/// collection holds there, and nothing beyond its end.
pub proof fn lemma_unshuffled_is_base<T>(overlay: ShuffleListModel<T>, position: u32)
    requires
        overlay.wf(),
        overlay.shuffle is None,
    ensures
        overlay@ == overlay.base(),
        overlay.base_position(position) == if position < overlay.base().len() {
            Some(position)
        } else {
            None
        },
{
}

/// While shuffled, the view shows every item of the base collection exactly
/// once: each view index stands for a base index, no two for the same, and
/// every base index is shown at some view index.
pub proof fn lemma_shuffled_is_bijection<T>(overlay: ShuffleListModel<T>)
    requires
        overlay.wf(),
        overlay.shuffle is Some,
    ensures
        overlay@.len() == overlay.base().len(),
        forall|i: u32|
            i < overlay@.len() ==> (#[trigger] overlay.base_position(i)) is Some
                && overlay.base_position(i).unwrap() < overlay.base().len() && overlay@[i as int]
                == overlay.base()[overlay.base_position(i).unwrap() as int],
        forall|i: u32, j: u32|
            i < overlay@.len() && j < overlay@.len() && i != j ==> overlay.base_position(i)
                != overlay.base_position(j),
        forall|k: u32| k < overlay.base().len() ==> #[trigger] overlay.shows(k),
{
    let shuffle = overlay.shuffle.unwrap()@;
    assert forall|k: u32| k < overlay.base().len() implies #[trigger] overlay.shows(k) by {
        assert(shuffle.contains(k));
        let i = choose|i: int| 0 <= i < shuffle.len() && shuffle[i] == k;
        assert(overlay.base_position(i as u32) == Some(k));
    }
}

} // verus!
