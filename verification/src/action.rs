//! The kinds of input that an action can be bound to.

use fxhash::FxHashMap;
use vstd::prelude::*;

verus! {

/// How the reading of an action is to be understood.
#[derive(Clone, Copy, Debug, PartialEq, Eq, Structural)]
pub enum Kind {
    /// A button.
    Absolute,
    /// A switch between -1 and 1.
    AbsoluteAxis,
    /// A directional pad: four buttons.
    AbsoluteAxis2,
    PositionAxis,
    /// A cursor.
    PositionAxis2,
    VelocityAxis,
    /// The motion of a mouse or of its wheel.
    VelocityAxis2,
}

/// `fxhash::FxHasher`, the hasher of the map of bindings.
#[verifier::external_type_specification]
#[verifier::external_body]
pub struct ExFxHasher(fxhash::FxHasher);

/// `std::hash::BuildHasherDefault`, which makes the hashers of the map of bindings.
#[verifier::external_type_specification]
#[verifier::external_body]
#[verifier::reject_recursive_types(H)]
pub struct ExBuildHasherDefault<H>(std::hash::BuildHasherDefault<H>);

/// The kind that each name is bound to in a map of bindings.
pub uninterp spec fn bindings(table: FxHashMap<String, Kind>) -> Map<Seq<char>, Kind>;

/// The map in which no name is bound.
pub open spec fn no_bindings() -> Map<Seq<char>, Kind> {
    Map::empty()
}

/// `FxHashMap::default`: a map without entries.
#[verifier::external_body]
fn bindings_new() -> (table: FxHashMap<String, Kind>)
    ensures
        bindings(table) == no_bindings(),
{
    FxHashMap::default()
}

/// `HashMap::insert` on a map that hashes with `FxHasher`: the key is bound to the
/// value, whatever it was bound to before, every other key keeps its value, and the
/// value that the key was bound to before is returned.
///
/// `FxHasher` computes its hash from the bytes of the key alone, so that equal strings
/// always meet in the same bucket.
#[verifier::external_body]
fn bindings_insert(table: &mut FxHashMap<String, Kind>, name: String, kind: Kind) -> (previous:
    Option<Kind>)
    ensures
        bindings(*final(table)) == bindings(*old(table)).insert(name@, kind),
        previous == (if bindings(*old(table)).contains_key(name@) {
            Some(bindings(*old(table))[name@])
        } else {
            None
        }),
{
    table.insert(name, kind)
}

/// The actions that a simulation knows, by name.
pub struct Actions {
    actions: FxHashMap<String, Kind>,
}

impl Actions {
    /// The kind of every action that has a name.
    pub closed spec fn view(&self) -> Map<Seq<char>, Kind> {
        bindings(self.actions)
    }

    pub fn new() -> (actions: Actions)
        ensures
            actions@ == no_bindings(),
    {
        Actions { actions: bindings_new() }
    }

    /// Binds `name` to `kind` and returns the kind that `name` was bound to before.
    pub fn insert(&mut self, name: String, kind: Kind) -> (previous: Option<Kind>)
        ensures
            final(self)@ == old(self)@.insert(name@, kind),
            previous == (if old(self)@.contains_key(name@) {
                Some(old(self)@[name@])
            } else {
                None
            }),
    {
        bindings_insert(&mut self.actions, name, kind)
    }
}

} // verus!
