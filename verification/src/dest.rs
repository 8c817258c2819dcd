//! Capability traits for welding.
//!
//! A destination container is anything that can start empty and accept
//! elements at its end. Its observable state is the sequence of atoms it
//! has accumulated: a vector of `A` accumulates atoms of type `A`, a
//! string accumulates `char`s. One destination may accept elements of
//! several types (a string accepts both a `char` and a `&str`); each
//! element contributes its own atoms at the end.

use vstd::prelude::*;
use vstd::string::StringExecFns;

verus! {

/// A growable destination container, modeled as the sequence of atoms it
/// has accumulated so far.
pub trait Dest: Sized {
    /// The kind of atom the container accumulates.
    type Atom;

    /// The atoms accumulated so far, in order.
    spec fn atoms(&self) -> Seq<Self::Atom>;

    /// A fresh destination holding no atoms.
    fn empty() -> (r: Self)
        ensures
            r.atoms() == Seq::<Self::Atom>::empty(),
    ;
}

/// The capability of a destination to take in one element of type `E` at
/// its end.
pub trait Accept<E>: Dest {
    /// The atoms a single element contributes to the destination.
    spec fn atoms_of(e: E) -> Seq<Self::Atom>;

    /// Append one element at the end of the destination.
    fn accept(&mut self, e: E)
        ensures
            final(self).atoms() == old(self).atoms() + Self::atoms_of(e),
    ;
}

/// The capability of a glue value to be duplicated: welding inserts a
/// fresh duplicate of the glue for each insertion, so the original is
/// never consumed.
pub trait Duplicate: Sized {
    /// Produce a value equal to the original.
    fn dup(&self) -> (r: Self)
        ensures
            r == *self,
    ;
}

impl<A> Dest for Vec<A> {
    type Atom = A;

    open spec fn atoms(&self) -> Seq<A> {
        self@
    }

    fn empty() -> (r: Self) {
        Vec::new()
    }
}

impl<A> Accept<A> for Vec<A> {
    open spec fn atoms_of(e: A) -> Seq<A> {
        seq![e]
    }

    fn accept(&mut self, e: A) {
        self.push(e);
        proof {
            assert(self@ =~= old(self)@ + seq![e]);
        }
    }
}

/// Relies on `String::push`, which appends the given `char` to the end
/// of the string.
pub assume_specification[ String::push ](s: &mut String, c: char)
    ensures
        final(s)@ == old(s)@.push(c),
;

impl Dest for String {
    type Atom = char;

    open spec fn atoms(&self) -> Seq<char> {
        self@
    }

    fn empty() -> (r: Self) {
        String::new()
    }
}

impl Accept<char> for String {
    open spec fn atoms_of(c: char) -> Seq<char> {
        seq![c]
    }

    fn accept(&mut self, c: char) {
        self.push(c);
        proof {
            assert(self@ =~= old(self)@ + seq![c]);
        }
    }
}

impl<'a> Accept<&'a str> for String {
    open spec fn atoms_of(e: &'a str) -> Seq<char> {
        e@
    }

    fn accept(&mut self, e: &'a str) {
        self.append(e);
    }
}

impl Accept<String> for String {
    open spec fn atoms_of(e: String) -> Seq<char> {
        e@
    }

    fn accept(&mut self, e: String) {
        self.append(e.as_str());
    }
}

impl Duplicate for char {
    fn dup(&self) -> (r: Self) {
        *self
    }
}

impl Duplicate for bool {
    fn dup(&self) -> (r: Self) {
        *self
    }
}

impl Duplicate for u8 {
    fn dup(&self) -> (r: Self) {
        *self
    }
}

impl Duplicate for u32 {
    fn dup(&self) -> (r: Self) {
        *self
    }
}

impl Duplicate for u64 {
    fn dup(&self) -> (r: Self) {
        *self
    }
}

impl Duplicate for usize {
    fn dup(&self) -> (r: Self) {
        *self
    }
}

impl Duplicate for i32 {
    fn dup(&self) -> (r: Self) {
        *self
    }
}

impl Duplicate for i64 {
    fn dup(&self) -> (r: Self) {
        *self
    }
}

impl<'a> Duplicate for &'a str {
    fn dup(&self) -> (r: Self) {
        *self
    }
}

impl Duplicate for String {
    fn dup(&self) -> (r: Self) {
        self.clone()
    }
}

} // verus!
