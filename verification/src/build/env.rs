//! The environment that is laid over the parent's for the child process,
//! and the composition of the compiler flags in it.

use vstd::prelude::*;

verus! {

/// The variable through which `cargo` hands flags to the compiler.
pub open spec fn rustflags_variable() -> Seq<char> {
    "RUSTFLAGS"@
}

/// The flags that are there already, followed by one space and the flags
/// to add. Nothing of what is there is dropped, also where it is empty.
pub open spec fn composed_flags(current: Seq<char>, added: Seq<char>) -> Seq<char> {
    current + seq![' '] + added
}

/// The value of a variable that may be unset: unset counts as empty.
pub open spec fn value_or_empty(value: Option<String>) -> Seq<char> {
    match value {
        Some(text) => text@,
        None => Seq::empty(),
    }
}

/// Composition only adds: the composed value starts with all of `current`,
/// goes on with one space, and ends with all of `added`.
pub proof fn lemma_composition_is_additive(current: Seq<char>, added: Seq<char>)
    ensures
        composed_flags(current, added).len() == current.len() + 1 + added.len(),
        composed_flags(current, added).subrange(0, current.len() as int) == current,
        composed_flags(current, added)[current.len() as int] == ' ',
        composed_flags(current, added).subrange(
            current.len() as int + 1,
            composed_flags(current, added).len() as int,
        ) == added,
{
}

/// Appends `added` to the flags in `current`, behind a single space.
pub fn compose_flags(current: String, added: &str) -> (composed: String)
    ensures
        composed@ == composed_flags(current@, added@),
{
    let mut composed = current;
    proof {
        reveal_strlit(" ");
    }
    composed.append(" ");
    composed.append(added);
    composed
}

/// Variables to set for the child process, each name at most once.
#[derive(Debug)]
pub struct EnvOverlay {
    entries: Vec<(String, String)>,
}

impl EnvOverlay {
    #[verifier::type_invariant]
    spec fn names_unique(self) -> bool {
        forall|i: int, j: int|
            0 <= i < j < self.entries.len() ==> (#[trigger] self.entries[i]).0@
                != (#[trigger] self.entries[j]).0@
    }

    spec fn at(self, name: Seq<char>, i: int) -> bool {
        0 <= i < self.entries.len() && self.entries[i].0@ == name
    }

    /// With unique names, the entry at `i` is what the view holds for its
    /// name.
    proof fn lemma_entry(self, i: int)
        requires
            self.names_unique(),
            0 <= i < self.entries.len(),
        ensures
            self@.contains_key(self.entries[i].0@),
            self@[self.entries[i].0@] == self.entries[i].1@,
    {
        let name = self.entries[i].0@;
        assert(self.at(name, i));
        let chosen = choose|l: int| self.at(name, l);
        assert(chosen == i);
    }

    /// Every name in the view is the name of an entry.
    proof fn lemma_named(self, name: Seq<char>) -> (i: int)
        requires
            self@.contains_key(name),
        ensures
            self.at(name, i),
    {
        choose|i: int| self.at(name, i)
    }

    /// An overlay that sets nothing.
    pub fn new() -> (overlay: Self)
        ensures
            overlay@ == Map::<Seq<char>, Seq<char>>::empty(),
    {
        let overlay = EnvOverlay { entries: Vec::new() };
        assert(overlay@ =~= Map::<Seq<char>, Seq<char>>::empty());
        overlay
    }

    /// The overlay with `name` set to `value`, in place of the value that it
    /// had, if any.
    pub fn with_var(self, name: String, value: String) -> (overlay: Self)
        ensures
            overlay@ == self@.insert(name@, value@),
    {
        proof {
            use_type_invariant(&self);
        }
        let mut entries = self.entries;
        let n = entries.len();
        let mut i: usize = 0;
        while i < n
            invariant
                n == entries.len(),
                i <= n,
                entries == self.entries,
                forall|j: int| 0 <= j < i ==> !self.at(name@, j),
            ensures
                i < n ==> self.at(name@, i as int),
            decreases n - i,
        {
            if entries[i].0 == name {
                break ;
            }
            i = i + 1;
        }
        assert forall|j: int| 0 <= j < n && j != i implies (#[trigger] self.entries[j]).0@
            != name@ by {
            if j < i {
                assert(!self.at(name@, j));
            }
        }
        if i < n {
            entries[i] = (name, value);
        } else {
            entries.push((name, value));
        }
        let overlay = EnvOverlay { entries };
        proof {
            let wanted = self@.insert(name@, value@);
            assert(overlay.at(name@, i as int));
            assert forall|k: Seq<char>| #[trigger]
                overlay@.dom().contains(k) implies wanted.dom().contains(k) && overlay@[k]
                == wanted[k] by {
                let j = overlay.lemma_named(k);
                overlay.lemma_entry(j);
                if j != i {
                    self.lemma_entry(j);
                }
            }
            assert forall|k: Seq<char>| #[trigger]
                wanted.dom().contains(k) implies overlay@.dom().contains(k) by {
                if k != name@ {
                    let j = self.lemma_named(k);
                    assert(overlay.at(k, j));
                }
            }
            assert(overlay@ =~= wanted);
        }
        overlay
    }

    /// Looks up the value that the overlay sets for `name`.
    pub fn get(&self, name: &str) -> (value: Option<&String>)
        ensures
            match value {
                Some(text) => self@.contains_key(name@) && text@ == self@[name@],
                None => !self@.contains_key(name@),
            },
    {
        proof {
            use_type_invariant(self);
        }
        let wanted = String::from_str(name);
        let n = self.entries.len();
        let mut i: usize = 0;
        while i < n
            invariant
                n == self.entries.len(),
                i <= n,
                wanted@ == name@,
                self.names_unique(),
                forall|j: int| 0 <= j < i ==> !self.at(name@, j),
            decreases n - i,
        {
            if self.entries[i].0 == wanted {
                proof {
                    self.lemma_entry(i as int);
                }
                return Some(&self.entries[i].1);
            }
            i = i + 1;
        }
        None
    }

    /// Hands out the variables, each as a pair of name and value. Every
    /// variable that the overlay sets comes once, with its value.
    pub fn into_entries(self) -> (pairs: Vec<(String, String)>)
        ensures
            forall|i: int, j: int|
                0 <= i < j < pairs.len() ==> (#[trigger] pairs[i]).0@ != (#[trigger] pairs[j]).0@,
            forall|i: int|
                0 <= i < pairs.len() ==> self@.contains_key((#[trigger] pairs[i]).0@)
                    && self@[pairs[i].0@] == pairs[i].1@,
            forall|name: Seq<char>| #[trigger]
                self@.contains_key(name) ==> exists|i: int|
                    0 <= i < pairs.len() && (#[trigger] pairs[i]).0@ == name,
    {
        proof {
            use_type_invariant(&self);
            assert forall|i: int| 0 <= i < self.entries.len() implies self@.contains_key(
                (#[trigger] self.entries[i]).0@,
            ) && self@[self.entries[i].0@] == self.entries[i].1@ by {
                self.lemma_entry(i);
            }
            assert forall|name: Seq<char>| #[trigger] self@.contains_key(name) implies exists|
                i: int,
            |
                0 <= i < self.entries.len() && (#[trigger] self.entries[i]).0@ == name by {
                let l = self.lemma_named(name);
                assert(self.entries[l].0@ == name);
            }
        }
        self.entries
    }
}

impl View for EnvOverlay {
    type V = Map<Seq<char>, Seq<char>>;

    /// The variables that the overlay sets, each with its value.
    closed spec fn view(&self) -> Map<Seq<char>, Seq<char>> {
        Map::new(
            |name: Seq<char>| exists|i: int| self.at(name, i),
            |name: Seq<char>| self.entries[choose|i: int| self.at(name, i)].1@,
        )
    }
}

/// The overlay that hands the compiler the flags in `added`, behind those
/// that the variable holds already. `current` is the variable's value in
/// the parent's environment, `None` where it is unset.
pub fn rustflags_overlay(current: Option<String>, added: &str) -> (overlay: EnvOverlay)
    ensures
        overlay@ == Map::<Seq<char>, Seq<char>>::empty().insert(
            rustflags_variable(),
            composed_flags(value_or_empty(current), added@),
        ),
{
    let existing = match current {
        Some(text) => text,
        None => String::new(),
    };
    EnvOverlay::new().with_var(String::from_str("RUSTFLAGS"), compose_flags(existing, added))
}

} // verus!
