//! What the execution of a statement has to know about the parameters bound
//! to it: how many rows of them there are, and which of them take their value
//! from a blob while the statement executes.

use vstd::prelude::*;

verus! {

/// The blob a delayed parameter identity stands for, looked up in the table
/// of the slots bound as delayed parameters. An identity is the number of the
/// slot it was bound to; one which names no such slot stands for nothing.
pub open spec fn resolve(delayed: Set<u16>, identity: usize) -> Option<u16> {
    if identity <= u16::MAX && delayed.contains(identity as u16) {
        Some(identity as u16)
    } else {
        None
    }
}

/// A set of parameters as seen by the execution of a statement.
///
/// The values themselves stay with the caller, who binds them to the
/// statement. Kept here are the number of parameter rows, and the side table
/// of the slots whose values are streamed from a blob at execution time.
#[derive(Debug, Clone)]
pub struct ParameterCollection {
    parameter_set_size: usize,
    delayed: Vec<u16>,
}

impl ParameterCollection {
    /// Number of parameter rows bound and executed together.
    pub closed spec fn cardinality(&self) -> usize {
        self.parameter_set_size
    }

    /// The slots bound as delayed parameters.
    pub closed spec fn delayed(&self) -> Set<u16> {
        self.delayed@.to_set()
    }

    /// A collection of `parameter_set_size` rows, none of its slots delayed.
    pub fn new(parameter_set_size: usize) -> (params: Self)
        ensures
            params.cardinality() == parameter_set_size,
            params.delayed() == Set::<u16>::empty(),
    {
        ParameterCollection { parameter_set_size, delayed: Vec::new() }
    }

    pub fn parameter_set_size(&self) -> (size: usize)
        ensures
            size == self.cardinality(),
    {
        self.parameter_set_size
    }

    pub fn is_delayed(&self, slot: u16) -> (yes: bool)
        ensures
            yes == self.delayed().contains(slot),
    {
        let mut i: usize = 0;
        while i < self.delayed.len()
            invariant
                i <= self.delayed@.len(),
                forall|j: int| 0 <= j < i ==> self.delayed@[j] != slot,
            decreases self.delayed@.len() - i,
        {
            if self.delayed[i] == slot {
                return true;
            }
            i += 1;
        }
        false
    }

    /// Enters `slot` into the table of delayed parameters.
    pub fn bind_delayed(&mut self, slot: u16)
        ensures
            final(self).cardinality() == old(self).cardinality(),
            final(self).delayed() == old(self).delayed().insert(slot),
    {
        if !self.is_delayed(slot) {
            self.delayed.push(slot);
            assert(self.delayed@.to_set() =~= old(self).delayed@.to_set().insert(slot)) by {
                assert forall|s: u16| self.delayed@.contains(s) <==> old(self).delayed@.contains(s)
                    || s == slot by {
                    if old(self).delayed@.contains(s) {
                        let j = choose|j: int|
                            0 <= j < old(self).delayed@.len() && old(self).delayed@[j] == s;
                        assert(self.delayed@[j] == s);
                    }
                    if s == slot {
                        assert(self.delayed@[self.delayed@.len() - 1] == s);
                    }
                }
            }
        }
    }

    /// The identity under which the caller binds the delayed parameter at
    /// `slot`: the driver hands it back once it wants the data of that
    /// parameter.
    pub fn identity(slot: u16) -> (identity: usize)
        ensures
            identity == slot,
            forall|delayed: Set<u16>|
                delayed.contains(slot) ==> #[trigger] resolve(delayed, identity) == Some(slot),
    {
        slot as usize
    }

    /// Finds the slot of the blob the driver asks for.
    pub fn resolve(&self, identity: usize) -> (slot: Option<u16>)
        ensures
            slot == resolve(self.delayed(), identity),
    {
        if identity <= u16::MAX as usize {
            let slot = identity as u16;
            if self.is_delayed(slot) {
                return Some(slot);
            }
        }
        None
    }
}

} // verus!
