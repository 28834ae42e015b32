//! Sets of command names, as the configuration gives them.

use crate::text::{owned, split, split_on, slice_views, trim, trimmed};
use vstd::prelude::*;

verus! {

/// A set of command names. A name belongs to the set when it equals one
/// of the listed names exactly.
#[derive(Clone, Debug)]
pub struct NameSet {
    pub names: Vec<String>,
}

impl View for NameSet {
    type V = Set<Seq<char>>;

    open spec fn view(&self) -> Set<Seq<char>> {
        self.names.deep_view().to_set()
    }
}

/// The names that a separated list holds: its pieces between `|`, each
/// without the whitespace around it.
pub open spec fn listed_names(text: Seq<char>) -> Set<Seq<char>> {
    Set::new(
        |name: Seq<char>|
            exists|i: int|
                0 <= i < split(text, '|').len() && name == trimmed(#[trigger] split(text, '|')[i]),
    )
}

impl NameSet {
    /// The empty set.
    pub fn new() -> (set: NameSet)
        ensures
            set@ == Set::<Seq<char>>::empty(),
    {
        let set = NameSet { names: Vec::new() };
        set
    }

    /// The set of the names in a list separated by `|`.
    pub fn parse(text: &str) -> (set: NameSet)
        ensures
            set@ == listed_names(text@),
    {
        let pieces = split_on(text, '|');
        let mut names: Vec<String> = Vec::new();
        let mut i: usize = 0;
        while i < pieces.len()
            invariant
                i <= pieces.len(),
                slice_views(pieces@) == split(text@, '|'),
                names.len() == i,
                forall|k: int| 0 <= k < i ==> (#[trigger] names@[k])@ == trimmed(pieces@[k]@),
            decreases pieces.len() - i,
        {
            let name = owned(trim(pieces[i]));
            names.push(name);
            i += 1;
        }
        let set = NameSet { names };
        proof {
            let parts = split(text@, '|');
            assert forall|name: Seq<char>| set@.contains(name) == listed_names(text@).contains(
                name,
            ) by {
                if set@.contains(name) {
                    let k = choose|k: int|
                        0 <= k < set.names.deep_view().len() && set.names.deep_view()[k] == name;
                    assert(name == trimmed(parts[k]));
                }
                if listed_names(text@).contains(name) {
                    let k = choose|k: int|
                        0 <= k < parts.len() && name == trimmed(#[trigger] parts[k]);
                    assert(set.names.deep_view()[k] == name);
                }
            }
        }
        set
    }

    /// Tells whether `name` is one of the names of the set.
    pub fn contains(&self, name: &String) -> (r: bool)
        ensures
            r == self@.contains(name@),
    {
        let mut i: usize = 0;
        while i < self.names.len()
            invariant
                i <= self.names.len(),
                forall|k: int| 0 <= k < i ==> (#[trigger] self.names@[k])@ != name@,
            decreases self.names.len() - i,
        {
            if self.names[i] == *name {
                assert(self.names.deep_view()[i as int] == name@);
                return true;
            }
            i += 1;
        }
        false
    }
}

} // verus!
