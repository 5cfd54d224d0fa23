//! The variable table: stable, monotonically assigned SSA identities, each
//! with its declared type and an optional debug name.

use vstd::prelude::*;
use crate::lir_type::Type;

verus! {

/// One variable's record: its declared type and optional debug name.
#[derive(Debug)]
pub struct Var {
    pub ty: Type,
    pub name: Option<String>,
}

/// An arena of variable records indexed by a plain integer identity.
/// Identities are assigned monotonically and never reused or renumbered, so
/// printed identifiers stay stable across passes that only add variables;
/// an identity, once assigned a type, never changes it.
#[derive(Debug)]
pub struct Vartable {
    vars: Vec<Var>,
}

impl View for Vartable {
    type V = Seq<Var>;

    closed spec fn view(&self) -> Seq<Var> {
        self.vars@
    }
}

impl Vartable {
    /// An empty table; the next identity to be assigned is 0.
    pub fn new() -> (r: Vartable)
        ensures
            r@ == Seq::<Var>::empty(),
    {
        Vartable { vars: Vec::new() }
    }

    /// The next identity `declare` will assign; every identity below it is
    /// already declared.
    pub fn next_id(&self) -> (r: usize)
        ensures
            r == self@.len(),
    {
        self.vars.len()
    }

    /// Assigns a fresh identity to a value of type `ty`. The new identity is
    /// exactly the old `next_id`, so identities are never reused, and every
    /// earlier record is left unchanged.
    pub fn declare(&mut self, ty: Type) -> (id: usize)
        ensures
            id == old(self)@.len(),
            final(self)@ == old(self)@.push(Var { ty, name: None::<String> }),
    {
        let id = self.vars.len();
        self.vars.push(Var { ty, name: None });
        id
    }

    /// Assigns a fresh identity carrying a debug name.
    pub fn declare_named(&mut self, ty: Type, name: String) -> (id: usize)
        ensures
            id == old(self)@.len(),
            final(self)@ == old(self)@.push(Var { ty, name: Some(name) }),
    {
        let id = self.vars.len();
        self.vars.push(Var { ty, name: Some(name) });
        id
    }

    /// The declared type of a known identity. An unknown identity is an
    /// internal-compiler-error in an earlier pass, excluded by precondition.
    pub fn type_of(&self, id: usize) -> (r: &Type)
        requires
            id < self@.len(),
        ensures
            *r == self@[id as int].ty,
    {
        &self.vars[id].ty
    }

    /// The record of an identity, if it is known.
    pub fn get(&self, id: usize) -> (r: Option<&Var>)
        ensures
            match r {
                Option::Some(v) => id < self@.len() && *v == self@[id as int],
                Option::None => id >= self@.len(),
            },
    {
        if id < self.vars.len() {
            Some(&self.vars[id])
        } else {
            None
        }
    }
}

} // verus!
