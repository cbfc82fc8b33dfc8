//! A statement which is known to have an open result set.

use vstd::prelude::*;
use crate::outcome::Outcome;

verus! {

/// What a statement handle is in the middle of.
#[derive(Debug, Clone, Copy, PartialEq, Eq, Structural)]
pub enum StatementState {
    /// Nothing has been submitted for execution yet.
    Idle,
    /// A statement has been submitted, it is not known yet whether it left a
    /// result set.
    Executing,
    /// The statement has been executed and a result set is open.
    HasResultSet,
}

/// A statement with an open result set which can be fetched from.
///
/// The only way to obtain one is to hand a statement over in a place where
/// the result set is known to exist. The type is what records that the
/// statement is in the state `HasResultSet`.
#[derive(Debug)]
pub struct Cursor<S> {
    statement: S,
}

impl<S> View for Cursor<S> {
    type V = S;

    /// The statement the cursor wraps.
    closed spec fn view(&self) -> S {
        self.statement
    }
}

/// The outcome with the statement in place of the cursor which wraps it.
pub open spec fn wrapped<S>(outcome: Outcome<Cursor<S>>) -> Outcome<S> {
    match outcome {
        Outcome::Success(cursor) => Outcome::Success(cursor@),
        Outcome::Error(error) => Outcome::Error(error),
        Outcome::NoData => Outcome::NoData,
        Outcome::NeedData => Outcome::NeedData,
    }
}

/// The outcome with the statement in place of the cursor which wraps it, for
/// an operation which does not always leave a result set.
pub open spec fn wrapped_opt<S>(outcome: Outcome<Option<Cursor<S>>>) -> Outcome<Option<S>> {
    match outcome {
        Outcome::Success(Some(cursor)) => Outcome::Success(Some(cursor@)),
        Outcome::Success(None) => Outcome::Success(None),
        Outcome::Error(error) => Outcome::Error(error),
        Outcome::NoData => Outcome::NoData,
        Outcome::NeedData => Outcome::NeedData,
    }
}

impl<S> Cursor<S> {
    /// Wraps a statement a successful catalog query has been submitted to.
    pub(crate) fn new(statement: S) -> (cursor: Self)
        ensures
            cursor@ == statement,
    {
        Cursor { statement }
    }

    /// Turns an executed statement into a cursor if it has a result set,
    /// which is the case if the driver reports at least one result column
    /// for it. Without a result set the statement is given up.
    pub fn materialize(statement: S, num_result_cols: i16) -> (cursor: Option<Self>)
        ensures
            num_result_cols > 0 ==> (cursor matches Some(c) && c@ == statement),
            num_result_cols <= 0 ==> cursor is None,
    {
        if num_result_cols > 0 {
            Some(Cursor { statement })
        } else {
            None
        }
    }

    /// The state of the statement handle: a cursor is what stands for a
    /// handle with a result set.
    pub fn statement_state(&self) -> (state: StatementState)
        ensures
            state == StatementState::HasResultSet,
    {
        StatementState::HasResultSet
    }

    pub fn statement(&self) -> (statement: &S)
        ensures
            *statement == self@,
    {
        &self.statement
    }

    pub fn statement_mut(&mut self) -> (statement: &mut S)
        ensures
            *statement == old(self)@,
            final(self)@ == *final(statement),
    {
        &mut self.statement
    }

    /// Gives up the claim that the result set is open.
    pub fn into_statement(self) -> (statement: S)
        ensures
            statement == self@,
    {
        self.statement
    }
}

} // verus!
