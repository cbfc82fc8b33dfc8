//! Execution of a statement with parameters, including the parameters whose
//! values are streamed to the data source while the statement executes.
//!
//! An execution is a sequence of driver calls with a decision after each of
//! them. The decisions are made here. Whoever owns the connection to the
//! driver runs the loop: it performs the [`Action`] it is handed, passes the
//! answer as an [`Event`] to [`Execution::resume`] and goes on with the
//! [`Step`] it gets back, until that step is `Done`.

use vstd::prelude::*;
use widestring::U16Str;
use crate::cursor::wrapped;
use crate::cursor::wrapped_opt;
use crate::cursor::Cursor;
use crate::cursor::StatementState;
use crate::outcome::Error;
use crate::outcome::Function;
use crate::outcome::Outcome;
use crate::outcome::ProgrammingError;
use crate::outcome::Reply;
use crate::outcome::SqlReturn;
use crate::parameter::resolve;
use crate::parameter::ParameterCollection;

verus! {

/// What an execution asks its caller to do next.
#[derive(Debug, Clone, PartialEq, Eq)]
pub enum Action<'q> {
    /// Release the parameters which are still bound from an earlier use of
    /// the statement.
    ResetParameters,
    /// Tell the statement how many parameter rows are going to be bound.
    SetParamsetSize(usize),
    /// Bind the buffers of the parameter collection to the statement.
    BindParameters,
    /// Execute the statement text.
    ExecDirect(&'q U16Str),
    /// Execute the statement which has been prepared before.
    Execute,
    /// Ask the driver which delayed parameter it wants the data of.
    ParamData,
    /// Pull the next batch from the blob bound to `slot`.
    NextBatch { slot: u16 },
    /// Send the batch to the driver.
    PutData(Vec<u8>),
    /// Ask for the number of columns of the result set.
    NumResultCols,
}

/// The answer to an [`Action`].
#[derive(Debug)]
pub enum Event {
    /// The driver has answered `ResetParameters`, `SetParamsetSize`,
    /// `ExecDirect`, `Execute` or `PutData`.
    Returned(Reply),
    /// The answer to `BindParameters`.
    Bound(Result<(), Error>),
    /// The answer to `ParamData`. The identity is looked at only if the
    /// driver says that it needs data.
    ParamData(Reply, usize),
    /// The answer to `NextBatch`: a batch, or `None` once the blob has handed
    /// out all of its batches.
    Batch(Result<Option<Vec<u8>>, std::io::Error>),
    /// The answer to `NumResultCols`, with the number reported.
    ResultColumns(Reply, i16),
}

/// The call an execution waits for the answer of.
#[derive(Debug, Clone, Copy, PartialEq, Eq, Structural)]
pub enum Phase {
    ResettingParameters,
    SettingParamsetSize,
    BindingParameters,
    Executing,
    AwaitingDelayedParameter,
    PullingBatch { slot: u16 },
    SendingBatch { slot: u16 },
    CountingResultColumns,
}

impl Phase {
    /// The state the statement handle is in during the phase.
    pub open spec fn statement_state(self) -> StatementState {
        match self {
            Phase::ResettingParameters | Phase::SettingParamsetSize | Phase::BindingParameters =>
                StatementState::Idle,
            _ => StatementState::Executing,
        }
    }
}

/// An execution which waits for the answer to a driver call.
#[derive(Debug)]
pub struct Execution<'q, S> {
    statement: S,
    query: Option<&'q U16Str>,
    parameters: ParameterCollection,
    phase: Phase,
}

/// An execution as the contracts speak of it.
pub struct ExecutionView<'q, S> {
    /// The statement which executes.
    pub statement: S,
    /// The statement text, `None` if a prepared statement is executed.
    pub query: Option<&'q U16Str>,
    /// Number of parameter rows.
    pub parameter_set_size: usize,
    /// Slots of the parameters bound to a blob.
    pub delayed: Set<u16>,
    pub phase: Phase,
}

/// How an execution goes on.
#[derive(Debug)]
pub enum Step<'q, S> {
    /// The caller performs the action and resumes the execution with the
    /// answer.
    Call(Execution<'q, S>, Action<'q>),
    /// The execution is over. A cursor is handed out if the statement left a
    /// result set.
    Done(Outcome<Option<Cursor<S>>>),
}

/// A step as the contracts speak of it: a cursor is the statement it wraps.
pub enum StepView<'q, S> {
    Call(ExecutionView<'q, S>, Action<'q>),
    Done(Outcome<Option<S>>),
}

impl<'q, S> ExecutionView<'q, S> {
    /// As long as the number of parameter rows has not been set there is at
    /// least one such row: for an empty parameter set no execution begins.
    pub open spec fn wf(self) -> bool {
        self.phase == Phase::ResettingParameters || self.phase == Phase::SettingParamsetSize
            ==> self.parameter_set_size > 0
    }

    /// The same execution in another phase.
    pub open spec fn at(self, phase: Phase) -> Self {
        ExecutionView { phase, ..self }
    }

    /// The driver function which executes the statement.
    pub open spec fn executor(self) -> Function {
        match self.query {
            Some(_) => Function::ExecDirect,
            None => Function::Execute,
        }
    }

    /// Submits the statement: its text if there is one, the prepared
    /// statement otherwise.
    pub open spec fn dispatch(self) -> StepView<'q, S> {
        match self.query {
            Some(text) => StepView::Call(self.at(Phase::Executing), Action::ExecDirect(text)),
            None => StepView::Call(self.at(Phase::Executing), Action::Execute),
        }
    }

    /// Asks for the number of result columns, which decides about the cursor.
    pub open spec fn count_columns(self) -> StepView<'q, S> {
        StepView::Call(self.at(Phase::CountingResultColumns), Action::NumResultCols)
    }

    /// Asks the driver for the next delayed parameter.
    pub open spec fn next_parameter(self) -> StepView<'q, S> {
        StepView::Call(self.at(Phase::AwaitingDelayedParameter), Action::ParamData)
    }

    /// Asks the blob at `slot` for its next batch.
    pub open spec fn next_batch(self, slot: u16) -> StepView<'q, S> {
        StepView::Call(self.at(Phase::PullingBatch { slot }), Action::NextBatch { slot })
    }
}

/// The end of an execution with the failure of `function`.
pub open spec fn failed<'q, S>(function: Function, reply: Reply) -> StepView<'q, S> {
    StepView::Done(Outcome::Error(reply.failure(function)))
}

/// The end of an execution due to a defect of the caller.
pub open spec fn defect<'q, S>(error: ProgrammingError) -> StepView<'q, S> {
    StepView::Done(Outcome::Error(Error::Programming(error)))
}

/// The decision taken after each driver call: how the execution `v` goes on
/// once `event` is the answer to the call it waits for.
///
/// * A call which fails ends the execution with the error of that call.
/// * The parameters are reset, their number is set, they are bound, and then
///   the statement is submitted.
/// * If the driver needs data, it is asked for the delayed parameter it wants
///   the data of. All batches of the blob bound to that parameter are sent,
///   then the driver is asked again, until it wants no more. An empty
///   batch is never sent: it ends the execution.
/// * At last the number of result columns tells whether there is a cursor.
///   A driver which reports a negative number is in error.
/// * An answer which is not one to the call waited for ends the execution.
pub open spec fn next<'q, S>(v: ExecutionView<'q, S>, event: Event) -> StepView<'q, S> {
    match (v.phase, event) {
        (Phase::ResettingParameters, Event::Returned(reply)) => {
            if reply.code.succeeded() {
                StepView::Call(
                    v.at(Phase::SettingParamsetSize),
                    Action::SetParamsetSize(v.parameter_set_size),
                )
            } else {
                failed(Function::FreeStmt, reply)
            }
        },
        (Phase::SettingParamsetSize, Event::Returned(reply)) => {
            if reply.code.succeeded() {
                StepView::Call(v.at(Phase::BindingParameters), Action::BindParameters)
            } else {
                failed(Function::SetStmtAttr, reply)
            }
        },
        (Phase::BindingParameters, Event::Bound(Ok(_))) => v.dispatch(),
        (Phase::BindingParameters, Event::Bound(Err(error))) => StepView::Done(
            Outcome::Error(error),
        ),
        (Phase::Executing, Event::Returned(reply)) => {
            match reply.code {
                SqlReturn::NeedData => v.next_parameter(),
                SqlReturn::Success | SqlReturn::SuccessWithInfo | SqlReturn::NoData =>
                    v.count_columns(),
                _ => failed(v.executor(), reply),
            }
        },
        (Phase::AwaitingDelayedParameter, Event::ParamData(reply, identity)) => {
            match reply.code {
                SqlReturn::NeedData => match resolve(v.delayed, identity) {
                    Some(slot) => v.next_batch(slot),
                    None => defect(ProgrammingError::UnknownDelayedParameter),
                },
                SqlReturn::Success | SqlReturn::SuccessWithInfo => v.count_columns(),
                _ => failed(Function::ParamData, reply),
            }
        },
        (Phase::PullingBatch { slot }, Event::Batch(Ok(Some(batch)))) => {
            if batch@.len() == 0 {
                defect(ProgrammingError::EmptyBatch)
            } else {
                StepView::Call(v.at(Phase::SendingBatch { slot }), Action::PutData(batch))
            }
        },
        (Phase::PullingBatch { slot }, Event::Batch(Ok(None))) => v.next_parameter(),
        (Phase::PullingBatch { slot }, Event::Batch(Err(cause))) => StepView::Done(
            Outcome::Error(Error::InputReadFailure(cause)),
        ),
        (Phase::SendingBatch { slot }, Event::Returned(reply)) => {
            match reply.code {
                SqlReturn::Success | SqlReturn::SuccessWithInfo | SqlReturn::NeedData =>
                    v.next_batch(slot),
                _ => failed(Function::PutData, reply),
            }
        },
        (Phase::CountingResultColumns, Event::ResultColumns(reply, count)) => {
            if !reply.code.succeeded() {
                failed(Function::NumResultCols, reply)
            } else if count == 0 {
                StepView::Done(Outcome::Success(None))
            } else if count > 0 {
                StepView::Done(Outcome::Success(Some(v.statement)))
            } else {
                StepView::Done(
                    Outcome::Error(
                        Error::Driver { function: Function::NumResultCols, diagnostic: None },
                    ),
                )
            }
        },
        _ => defect(ProgrammingError::UnexpectedEvent),
    }
}

/// How the execution begins once the statement has been asked for: not at
/// all if there is none.
pub open spec fn begin<'q, S>(
    acquired: Result<S, Error>,
    query: Option<&'q U16Str>,
    parameter_set_size: usize,
    delayed: Set<u16>,
) -> StepView<'q, S> {
    match acquired {
        Ok(statement) => StepView::Call(
            ExecutionView {
                statement,
                query,
                parameter_set_size,
                delayed,
                phase: Phase::ResettingParameters,
            },
            Action::ResetParameters,
        ),
        Err(error) => StepView::Done(Outcome::Error(error)),
    }
}

/// How the execution begins on a statement the parameters are bound to
/// already.
pub open spec fn submit<'q, S>(
    statement: S,
    query: Option<&'q U16Str>,
    parameter_set_size: usize,
    delayed: Set<u16>,
) -> StepView<'q, S> {
    (ExecutionView { statement, query, parameter_set_size, delayed, phase: Phase::Executing })
        .dispatch()
}

/// What a catalog query leaves behind. Such a query works like a `SELECT`:
/// if the driver accepts it, the statement has a result set.
pub open spec fn catalog<S>(statement: S, reply: Reply, function: Function) -> Outcome<S> {
    if reply.code.succeeded() {
        Outcome::Success(statement)
    } else {
        Outcome::Error(reply.failure(function))
    }
}

impl<'q, S> View for Execution<'q, S> {
    type V = ExecutionView<'q, S>;

    closed spec fn view(&self) -> ExecutionView<'q, S> {
        ExecutionView {
            statement: self.statement,
            query: self.query,
            parameter_set_size: self.parameters.cardinality(),
            delayed: self.parameters.delayed(),
            phase: self.phase,
        }
    }
}

impl<'q, S> View for Step<'q, S> {
    type V = StepView<'q, S>;

    open spec fn view(&self) -> StepView<'q, S> {
        match *self {
            Step::Call(execution, action) => StepView::Call(execution@, action),
            Step::Done(outcome) => StepView::Done(wrapped_opt(outcome)),
        }
    }
}

/// Executes a statement with the parameters of `params`.
///
/// Nothing is executed for an empty parameter set. The statement is acquired
/// only if there is something to execute: with zero parameter rows
/// `lazy_statement` is not even required to be callable.
///
/// * `lazy_statement`: Hands out the statement to execute on.
/// * `query`: Text of the statement. `None` executes the statement prepared on
///   the handle.
pub fn execute_with_parameters<'q, S, F>(
    lazy_statement: F,
    query: Option<&'q U16Str>,
    params: ParameterCollection,
) -> (step: Step<'q, S>) where F: FnOnce() -> Result<S, Error>
    requires
        params.cardinality() > 0 ==> call_requires(lazy_statement, ()),
    ensures
        params.cardinality() == 0 ==> step@ == StepView::<S>::Done(Outcome::Success(None)),
        params.cardinality() > 0 ==> exists|acquired: Result<S, Error>|
            call_ensures(lazy_statement, (), acquired) && step@ == begin(
                acquired,
                query,
                params.cardinality(),
                params.delayed(),
            ),
        step@ matches StepView::Call(v, _) ==> v.wf(),
{
    if params.parameter_set_size() == 0 {
        return Step::Done(Outcome::Success(None));
    }
    let acquired = lazy_statement();
    let ghost witness = acquired;
    let step = match acquired {
        Ok(statement) => Step::Call(
            Execution { statement, query, parameters: params, phase: Phase::ResettingParameters },
            Action::ResetParameters,
        ),
        Err(error) => Step::Done(Outcome::Error(error)),
    };
    assert(step@ == begin(witness, query, params.cardinality(), params.delayed()));
    step
}

/// Executes a statement whose parameters are bound already. `params` tells
/// which of them are bound to a blob.
pub fn execute<'q, S>(statement: S, query: Option<&'q U16Str>, params: ParameterCollection) -> (step:
    Step<'q, S>)
    ensures
        step@ == submit(statement, query, params.cardinality(), params.delayed()),
        step@ matches StepView::Call(v, _) ==> v.wf(),
{
    let execution = Execution { statement, query, parameters: params, phase: Phase::Executing };
    match query {
        Some(text) => Step::Call(execution, Action::ExecDirect(text)),
        None => Step::Call(execution, Action::Execute),
    }
}

/// Turns the statement a catalog query for columns has been submitted to
/// into a cursor over the columns found. `reply` is the answer of the driver
/// to that query.
pub fn execute_columns<S>(statement: S, reply: Reply) -> (outcome: Outcome<Cursor<S>>)
    ensures
        wrapped(outcome) == catalog(statement, reply, Function::Columns),
{
    if reply.code.is_success() {
        Outcome::Success(Cursor::new(statement))
    } else {
        Outcome::Error(reply.into_failure(Function::Columns))
    }
}

/// Turns the statement a catalog query for tables has been submitted to into
/// a cursor over the tables found. `reply` is the answer of the driver to
/// that query.
pub fn execute_tables<S>(statement: S, reply: Reply) -> (outcome: Outcome<Cursor<S>>)
    ensures
        wrapped(outcome) == catalog(statement, reply, Function::Tables),
{
    if reply.code.is_success() {
        Outcome::Success(Cursor::new(statement))
    } else {
        Outcome::Error(reply.into_failure(Function::Tables))
    }
}

impl<'q, S> Execution<'q, S> {
    /// The statement, for the caller to perform the action on.
    pub fn statement_mut(&mut self) -> (statement: &mut S)
        ensures
            *statement == old(self)@.statement,
            final(self)@ == (ExecutionView { statement: *final(statement), ..old(self)@ }),
    {
        &mut self.statement
    }

    pub fn phase(&self) -> (phase: Phase)
        ensures
            phase == self@.phase,
    {
        self.phase
    }

    /// The state of the statement handle.
    pub fn statement_state(&self) -> (state: StatementState)
        ensures
            state == self@.phase.statement_state(),
    {
        match self.phase {
            Phase::ResettingParameters | Phase::SettingParamsetSize | Phase::BindingParameters =>
                StatementState::Idle,
            _ => StatementState::Executing,
        }
    }

    fn proceed(self, phase: Phase, action: Action<'q>) -> (step: Step<'q, S>)
        ensures
            step@ == StepView::Call(self@.at(phase), action),
    {
        Step::Call(Execution { phase, ..self }, action)
    }

    /// Goes on with the execution, `event` being the answer to the action
    /// which has been handed out together with `self`.
    pub fn resume(self, event: Event) -> (step: Step<'q, S>)
        ensures
            step@ == next(self@, event),
    {
        match (self.phase, event) {
            (Phase::ResettingParameters, Event::Returned(reply)) => {
                if reply.code.is_success() {
                    let size = self.parameters.parameter_set_size();
                    self.proceed(Phase::SettingParamsetSize, Action::SetParamsetSize(size))
                } else {
                    Step::Done(Outcome::Error(reply.into_failure(Function::FreeStmt)))
                }
            },
            (Phase::SettingParamsetSize, Event::Returned(reply)) => {
                if reply.code.is_success() {
                    self.proceed(Phase::BindingParameters, Action::BindParameters)
                } else {
                    Step::Done(Outcome::Error(reply.into_failure(Function::SetStmtAttr)))
                }
            },
            (Phase::BindingParameters, Event::Bound(Ok(_))) => {
                match self.query {
                    Some(text) => self.proceed(Phase::Executing, Action::ExecDirect(text)),
                    None => self.proceed(Phase::Executing, Action::Execute),
                }
            },
            (Phase::BindingParameters, Event::Bound(Err(error))) => Step::Done(
                Outcome::Error(error),
            ),
            (Phase::Executing, Event::Returned(reply)) => {
                match reply.code {
                    SqlReturn::NeedData => self.proceed(
                        Phase::AwaitingDelayedParameter,
                        Action::ParamData,
                    ),
                    SqlReturn::Success | SqlReturn::SuccessWithInfo | SqlReturn::NoData =>
                        self.proceed(Phase::CountingResultColumns, Action::NumResultCols),
                    _ => {
                        let function = match self.query {
                            Some(_) => Function::ExecDirect,
                            None => Function::Execute,
                        };
                        Step::Done(Outcome::Error(reply.into_failure(function)))
                    },
                }
            },
            (Phase::AwaitingDelayedParameter, Event::ParamData(reply, identity)) => {
                match reply.code {
                    SqlReturn::NeedData => match self.parameters.resolve(identity) {
                        Some(slot) => self.proceed(
                            Phase::PullingBatch { slot },
                            Action::NextBatch { slot },
                        ),
                        None => Step::Done(
                            Outcome::Error(
                                Error::Programming(ProgrammingError::UnknownDelayedParameter),
                            ),
                        ),
                    },
                    SqlReturn::Success | SqlReturn::SuccessWithInfo => self.proceed(
                        Phase::CountingResultColumns,
                        Action::NumResultCols,
                    ),
                    _ => Step::Done(Outcome::Error(reply.into_failure(Function::ParamData))),
                }
            },
            (Phase::PullingBatch { slot }, Event::Batch(Ok(Some(batch)))) => {
                if batch.len() == 0 {
                    Step::Done(Outcome::Error(Error::Programming(ProgrammingError::EmptyBatch)))
                } else {
                    self.proceed(Phase::SendingBatch { slot }, Action::PutData(batch))
                }
            },
            (Phase::PullingBatch { slot }, Event::Batch(Ok(None))) => self.proceed(
                Phase::AwaitingDelayedParameter,
                Action::ParamData,
            ),
            (Phase::PullingBatch { slot }, Event::Batch(Err(cause))) => Step::Done(
                Outcome::Error(Error::InputReadFailure(cause)),
            ),
            (Phase::SendingBatch { slot }, Event::Returned(reply)) => {
                match reply.code {
                    SqlReturn::Success | SqlReturn::SuccessWithInfo | SqlReturn::NeedData =>
                        self.proceed(Phase::PullingBatch { slot }, Action::NextBatch { slot }),
                    _ => Step::Done(Outcome::Error(reply.into_failure(Function::PutData))),
                }
            },
            (Phase::CountingResultColumns, Event::ResultColumns(reply, count)) => {
                if !reply.code.is_success() {
                    Step::Done(Outcome::Error(reply.into_failure(Function::NumResultCols)))
                } else if count < 0 {
                    Step::Done(
                        Outcome::Error(
                            Error::Driver { function: Function::NumResultCols, diagnostic: None },
                        ),
                    )
                } else {
                    Step::Done(Outcome::Success(Cursor::materialize(self.statement, count)))
                }
            },
            _ => Step::Done(Outcome::Error(Error::Programming(ProgrammingError::UnexpectedEvent))),
        }
    }
}

} // verus!
