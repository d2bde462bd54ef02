//! Morphisms as relations, and maps as the morphisms that are functions.

use crate::general::exact::ExactEq;
use vstd::prelude::*;

verus! {

/// A relation between the values of `S1` and the values of `S2`.
pub trait Morphism<S1, S2> {
    /// Whether the morphism relates `s1` to `s2`.
    spec fn arrow_spec(&self, s1: S1, s2: S2) -> bool;

    /// Tests whether the morphism relates `s1` to `s2`.
    fn arrow(&self, s1: &S1, s2: &S2) -> (related: bool)
        ensures
            related == self.arrow_spec(*s1, *s2),
    ;
}

/// A morphism that is a function: it relates each value of `S1` to its image
/// in `S2` and to nothing else. The argument is taken by value.
pub trait MapOwned<S1, S2>: Morphism<S1, S2> {
    /// The image of `s1`.
    spec fn map_spec(&self, s1: S1) -> S2;

    /// The relation of a map is its graph.
    proof fn arrow_is_graph(&self, s1: S1, s2: S2)
        ensures
            self.arrow_spec(s1, s2) <==> s2 == self.map_spec(s1),
    ;

    /// Maps `s1` to its image.
    fn map(&self, s1: S1) -> (image: S2)
        ensures
            image == self.map_spec(s1),
    ;
}

/// A map that takes its argument by reference.
pub trait MapRef<S1, S2>: MapOwned<S1, S2> {
    /// Maps `s1` to its image.
    fn map_ref(&self, s1: &S1) -> (image: S2)
        ensures
            image == self.map_spec(*s1),
    ;
}

/// Tests whether `s2` is the image of `s1` under `map`. This is the relation
/// test of every map that takes its argument by reference and whose images
/// compare exactly.
pub fn arrow_of_map<S1, S2: ExactEq, M: MapRef<S1, S2>>(map: &M, s1: &S1, s2: &S2) -> (related:
    bool)
    ensures
        related == (*s2 == map.map_spec(*s1)),
        related == map.arrow_spec(*s1, *s2),
{
    let image = map.map_ref(s1);
    proof {
        S2::eq_is_exact(image, *s2);
        map.arrow_is_graph(*s1, *s2);
    }
    image == *s2
}

/// A map that takes its argument by reference and may change its own state
/// while it computes. The state does not bear on the images: the map is the
/// same function after the call as before.
pub trait MapMutRef<S1, S2>: MapOwned<S1, S2> {
    /// Maps `s1` to its image.
    fn map_mut_ref(&mut self, s1: &S1) -> (image: S2)
        ensures
            image == old(self).map_spec(*s1),
            forall|s: S1| #[trigger] final(self).map_spec(s) == old(self).map_spec(s),
    ;
}

/// A map that writes the image to storage of the caller and may change its
/// own state while it computes. The state does not bear on the images: the
/// map is the same function after the call as before.
pub trait MapMutTo<S1, S2>: MapOwned<S1, S2> {
    /// Writes the image of `s1` to `s2`.
    fn map_mut_to(&mut self, s1: &S1, s2: &mut S2)
        ensures
            *final(s2) == old(self).map_spec(*s1),
            forall|s: S1| #[trigger] final(self).map_spec(s) == old(self).map_spec(s),
    ;
}

/// A map that writes the image to storage of the caller and changes nothing
/// else.
pub trait MapTo<S1, S2>: MapOwned<S1, S2> {
    /// Writes the image of `s1` to `s2`.
    fn map_to(&self, s1: &S1, s2: &mut S2)
        ensures
            *final(s2) == self.map_spec(*s1),
    ;
}

} // verus!
