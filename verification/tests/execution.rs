use odbc_api::cursor::Cursor;
use odbc_api::execute::{
    execute, execute_columns, execute_tables, execute_with_parameters, Action, Event, Phase, Step,
};
use odbc_api::outcome::{
    Diagnostic, Error, Function, Outcome, ProgrammingError, Reply, SqlReturn,
};
use odbc_api::parameter::ParameterCollection;
use std::io;
use widestring::{U16Str, U16String};

type Finished = Outcome<Option<Cursor<&'static str>>>;

fn reply(code: SqlReturn) -> Reply {
    Reply { code, diagnostic: None }
}

fn ok() -> Event {
    Event::Returned(reply(SqlReturn::Success))
}

fn diagnostic() -> Diagnostic {
    Diagnostic { state: *b"42000", native_error: 102, message: vec![0x73, 0x79, 0x6e] }
}

/// Hands the events to the execution one by one. Returns the actions asked
/// for, and how the execution ended if it did.
fn drive<'q>(
    mut step: Step<'q, &'static str>,
    events: Vec<Event>,
) -> (Vec<Action<'q>>, Option<Finished>) {
    let mut actions = Vec::new();
    let mut events = events.into_iter();
    loop {
        match step {
            Step::Done(outcome) => {
                assert!(events.next().is_none(), "events left over");
                return (actions, Some(outcome));
            }
            Step::Call(execution, action) => {
                actions.push(action);
                match events.next() {
                    Some(event) => step = execution.resume(event),
                    None => return (actions, None),
                }
            }
        }
    }
}

fn one_delayed(parameter_set_size: usize) -> ParameterCollection {
    let mut params = ParameterCollection::new(parameter_set_size);
    params.bind_delayed(1);
    params
}

#[test]
fn empty_parameter_set_neither_acquires_nor_executes() {
    let step = execute_with_parameters(
        || -> Result<&'static str, Error> { panic!("statement must not be acquired") },
        None,
        ParameterCollection::new(0),
    );
    assert!(matches!(step, Step::Done(Outcome::Success(None))));
}

#[test]
fn empty_parameter_set_with_query_text_executes_nothing() {
    let text = U16String::from_str("SELECT ?");
    let mut params = ParameterCollection::new(0);
    params.bind_delayed(1);
    let step = execute_with_parameters(
        || -> Result<&'static str, Error> { panic!("statement must not be acquired") },
        Some(&text),
        params,
    );
    assert!(matches!(step, Step::Done(Outcome::Success(None))));
}

#[test]
fn statement_is_acquired_exactly_once() {
    let mut acquired = 0;
    let step = execute_with_parameters(
        || {
            acquired += 1;
            Ok("stmt")
        },
        None,
        ParameterCollection::new(3),
    );
    let (actions, outcome) = drive(step, vec![ok(), ok(), Event::Bound(Ok(())), ok()]);
    assert!(outcome.is_none());
    assert_eq!(acquired, 1);
    assert_eq!(
        actions,
        vec![
            Action::ResetParameters,
            Action::SetParamsetSize(3),
            Action::BindParameters,
            Action::Execute,
            Action::NumResultCols,
        ]
    );
}

#[test]
fn failed_acquisition_is_passed_on() {
    let step = execute_with_parameters(
        || -> Result<&'static str, Error> {
            Err(Error::Driver { function: Function::AllocHandle, diagnostic: Some(diagnostic()) })
        },
        None,
        ParameterCollection::new(1),
    );
    match step {
        Step::Done(Outcome::Error(Error::Driver { function, diagnostic: Some(record) })) => {
            assert_eq!(function, Function::AllocHandle);
            assert_eq!(record, diagnostic());
        }
        _ => panic!("acquisition error expected"),
    }
}

#[test]
fn no_result_columns_is_success_without_cursor() {
    let step = execute_with_parameters(|| Ok("stmt"), None, ParameterCollection::new(1));
    let (_, outcome) = drive(
        step,
        vec![
            ok(),
            ok(),
            Event::Bound(Ok(())),
            ok(),
            Event::ResultColumns(reply(SqlReturn::Success), 0),
        ],
    );
    assert!(matches!(outcome, Some(Outcome::Success(None))));
}

#[test]
fn result_columns_give_cursor_wrapping_the_statement() {
    let step = execute_with_parameters(|| Ok("the statement"), None, ParameterCollection::new(1));
    let (_, outcome) = drive(
        step,
        vec![
            ok(),
            ok(),
            Event::Bound(Ok(())),
            ok(),
            Event::ResultColumns(reply(SqlReturn::SuccessWithInfo), 4),
        ],
    );
    match outcome {
        Some(Outcome::Success(Some(cursor))) => {
            assert_eq!(*cursor.statement(), "the statement");
            assert_eq!(cursor.into_statement(), "the statement");
        }
        _ => panic!("cursor expected"),
    }
}

#[test]
fn negative_number_of_result_columns_is_a_driver_error() {
    let step = execute("stmt", None, ParameterCollection::new(1));
    let (_, outcome) =
        drive(step, vec![ok(), Event::ResultColumns(reply(SqlReturn::Success), -1)]);
    match outcome {
        Some(Outcome::Error(Error::Driver { function, diagnostic })) => {
            assert_eq!(function, Function::NumResultCols);
            assert_eq!(diagnostic, None);
        }
        _ => panic!("driver error expected"),
    }
}

#[test]
fn query_text_is_executed_directly() {
    let text = U16String::from_str("SELECT ? + ?");
    let step = execute_with_parameters(|| Ok("stmt"), Some(&text), ParameterCollection::new(2));
    let (actions, outcome) = drive(step, vec![ok(), ok(), Event::Bound(Ok(()))]);
    assert!(outcome.is_none());
    assert_eq!(
        actions,
        vec![
            Action::ResetParameters,
            Action::SetParamsetSize(2),
            Action::BindParameters,
            Action::ExecDirect(&text),
        ]
    );
}

#[test]
fn execute_starts_with_the_submission() {
    let text = U16String::from_str("DELETE FROM Movies");
    match execute("stmt", Some(&text), ParameterCollection::new(0)) {
        Step::Call(execution, action) => {
            assert_eq!(action, Action::ExecDirect(&text));
            assert_eq!(execution.phase(), Phase::Executing);
        }
        Step::Done(_) => panic!("statement must be submitted"),
    }
    match execute("stmt", None, ParameterCollection::new(0)) {
        Step::Call(_, action) => assert_eq!(action, Action::Execute),
        Step::Done(_) => panic!("statement must be submitted"),
    }
}

#[test]
fn no_data_on_execution_is_not_an_error() {
    let step = execute("stmt", None, ParameterCollection::new(1));
    let (actions, outcome) = drive(
        step,
        vec![
            Event::Returned(reply(SqlReturn::NoData)),
            Event::ResultColumns(reply(SqlReturn::Success), 0),
        ],
    );
    assert_eq!(actions, vec![Action::Execute, Action::NumResultCols]);
    assert!(matches!(outcome, Some(Outcome::Success(None))));
}

#[test]
fn batches_are_sent_in_order_before_the_next_parameter_is_asked_for() {
    let mut params = ParameterCollection::new(1);
    params.bind_delayed(1);
    params.bind_delayed(2);
    let step = execute("stmt", None, params);
    let need_data = || reply(SqlReturn::NeedData);
    let (actions, outcome) = drive(
        step,
        vec![
            Event::Returned(need_data()),
            Event::ParamData(need_data(), 1),
            Event::Batch(Ok(Some(b"a".to_vec()))),
            ok(),
            Event::Batch(Ok(Some(b"bb".to_vec()))),
            ok(),
            Event::Batch(Ok(None)),
            Event::ParamData(need_data(), 2),
            Event::Batch(Ok(Some(b"ccc".to_vec()))),
            ok(),
            Event::Batch(Ok(None)),
            Event::ParamData(reply(SqlReturn::Success), 0),
        ],
    );
    assert!(outcome.is_none());
    // What the driver gets to see, after it has been asked for the first
    // parameter: the actions without the pulls from the blobs.
    let driver_calls: Vec<Action> = actions
        .iter()
        .skip(2)
        .filter(|action| !matches!(action, Action::NextBatch { .. }))
        .cloned()
        .collect();
    assert_eq!(
        driver_calls,
        vec![
            Action::PutData(b"a".to_vec()),
            Action::PutData(b"bb".to_vec()),
            Action::ParamData,
            Action::PutData(b"ccc".to_vec()),
            Action::ParamData,
            Action::NumResultCols,
        ]
    );
    assert_eq!(
        actions,
        vec![
            Action::Execute,
            Action::ParamData,
            Action::NextBatch { slot: 1 },
            Action::PutData(b"a".to_vec()),
            Action::NextBatch { slot: 1 },
            Action::PutData(b"bb".to_vec()),
            Action::NextBatch { slot: 1 },
            Action::ParamData,
            Action::NextBatch { slot: 2 },
            Action::PutData(b"ccc".to_vec()),
            Action::NextBatch { slot: 2 },
            Action::ParamData,
            Action::NumResultCols,
        ]
    );
}

#[test]
fn empty_batch_fails_before_anything_is_sent() {
    let step = execute("stmt", None, one_delayed(1));
    let (actions, outcome) = drive(
        step,
        vec![
            Event::Returned(reply(SqlReturn::NeedData)),
            Event::ParamData(reply(SqlReturn::NeedData), 1),
            Event::Batch(Ok(Some(Vec::new()))),
        ],
    );
    assert_eq!(
        actions,
        vec![Action::Execute, Action::ParamData, Action::NextBatch { slot: 1 }]
    );
    assert!(matches!(
        outcome,
        Some(Outcome::Error(Error::Programming(ProgrammingError::EmptyBatch)))
    ));
}

#[test]
fn empty_batch_after_a_full_one_fails_without_sending_it() {
    let step = execute("stmt", None, one_delayed(1));
    let (actions, outcome) = drive(
        step,
        vec![
            Event::Returned(reply(SqlReturn::NeedData)),
            Event::ParamData(reply(SqlReturn::NeedData), 1),
            Event::Batch(Ok(Some(vec![1, 2, 3]))),
            Event::Returned(reply(SqlReturn::NeedData)),
            Event::Batch(Ok(Some(Vec::new()))),
        ],
    );
    let puts = actions.iter().filter(|action| matches!(action, Action::PutData(_))).count();
    assert_eq!(puts, 1);
    assert_eq!(actions.last(), Some(&Action::NextBatch { slot: 1 }));
    assert!(matches!(
        outcome,
        Some(Outcome::Error(Error::Programming(ProgrammingError::EmptyBatch)))
    ));
}

#[test]
fn failed_read_from_blob_ends_the_execution() {
    let step = execute("stmt", None, one_delayed(1));
    let (actions, outcome) = drive(
        step,
        vec![
            Event::Returned(reply(SqlReturn::NeedData)),
            Event::ParamData(reply(SqlReturn::NeedData), 1),
            Event::Batch(Ok(Some(vec![7]))),
            ok(),
            Event::Batch(Err(io::Error::new(io::ErrorKind::UnexpectedEof, "file is gone"))),
        ],
    );
    assert_eq!(actions.len(), 5);
    match outcome {
        Some(Outcome::Error(Error::InputReadFailure(cause))) => {
            assert_eq!(cause.kind(), io::ErrorKind::UnexpectedEof);
            assert_eq!(cause.to_string(), "file is gone");
        }
        _ => panic!("input read failure expected"),
    }
}

#[test]
fn unknown_delayed_parameter_is_a_programming_error() {
    let step = execute("stmt", None, one_delayed(1));
    let (actions, outcome) = drive(
        step,
        vec![
            Event::Returned(reply(SqlReturn::NeedData)),
            Event::ParamData(reply(SqlReturn::NeedData), 2),
        ],
    );
    assert_eq!(actions, vec![Action::Execute, Action::ParamData]);
    assert!(matches!(
        outcome,
        Some(Outcome::Error(Error::Programming(ProgrammingError::UnknownDelayedParameter)))
    ));
}

#[test]
fn identity_beyond_the_slots_is_unknown() {
    let step = execute("stmt", None, one_delayed(1));
    let (_, outcome) = drive(
        step,
        vec![
            Event::Returned(reply(SqlReturn::NeedData)),
            Event::ParamData(reply(SqlReturn::NeedData), 65537),
        ],
    );
    assert!(matches!(
        outcome,
        Some(Outcome::Error(Error::Programming(ProgrammingError::UnknownDelayedParameter)))
    ));
}

#[test]
fn answer_of_the_wrong_kind_is_a_programming_error() {
    let step = execute("stmt", None, ParameterCollection::new(1));
    let (_, outcome) = drive(step, vec![Event::Batch(Ok(None))]);
    assert!(matches!(
        outcome,
        Some(Outcome::Error(Error::Programming(ProgrammingError::UnexpectedEvent)))
    ));
    let step = execute_with_parameters(|| Ok("stmt"), None, ParameterCollection::new(1));
    let (_, outcome) = drive(step, vec![Event::ResultColumns(reply(SqlReturn::Success), 1)]);
    assert!(matches!(
        outcome,
        Some(Outcome::Error(Error::Programming(ProgrammingError::UnexpectedEvent)))
    ));
}

fn failure_of(events: Vec<Event>, query: Option<&U16Str>) -> (Function, Option<Diagnostic>) {
    let step = execute_with_parameters(|| Ok("stmt"), query, one_delayed(1));
    match drive(step, events) {
        (_, Some(Outcome::Error(Error::Driver { function, diagnostic }))) => (function, diagnostic),
        _ => panic!("driver error expected"),
    }
}

fn failed() -> Event {
    Event::Returned(Reply { code: SqlReturn::Error, diagnostic: Some(diagnostic()) })
}

#[test]
fn each_failing_call_is_named_in_the_error() {
    let text = U16String::from_str("SELECT 1");
    let need_data = || reply(SqlReturn::NeedData);
    assert_eq!(failure_of(vec![failed()], None), (Function::FreeStmt, Some(diagnostic())));
    assert_eq!(
        failure_of(vec![ok(), failed()], None),
        (Function::SetStmtAttr, Some(diagnostic()))
    );
    assert_eq!(
        failure_of(vec![ok(), ok(), Event::Bound(Ok(())), failed()], None),
        (Function::Execute, Some(diagnostic()))
    );
    assert_eq!(
        failure_of(vec![ok(), ok(), Event::Bound(Ok(())), failed()], Some(&text)),
        (Function::ExecDirect, Some(diagnostic()))
    );
    assert_eq!(
        failure_of(
            vec![
                ok(),
                ok(),
                Event::Bound(Ok(())),
                Event::Returned(need_data()),
                Event::ParamData(reply(SqlReturn::InvalidHandle), 0),
            ],
            None
        ),
        (Function::ParamData, None)
    );
    assert_eq!(
        failure_of(
            vec![
                ok(),
                ok(),
                Event::Bound(Ok(())),
                Event::Returned(need_data()),
                Event::ParamData(need_data(), 1),
                Event::Batch(Ok(Some(vec![1]))),
                failed(),
            ],
            None
        ),
        (Function::PutData, Some(diagnostic()))
    );
    assert_eq!(
        failure_of(
            vec![
                ok(),
                ok(),
                Event::Bound(Ok(())),
                ok(),
                Event::ResultColumns(reply(SqlReturn::Other(17)), 3),
            ],
            None
        ),
        (Function::NumResultCols, None)
    );
}

#[test]
fn no_data_is_a_failure_where_it_can_not_occur() {
    let no_data = || Event::Returned(reply(SqlReturn::NoData));
    assert_eq!(failure_of(vec![no_data()], None), (Function::FreeStmt, None));
    assert_eq!(failure_of(vec![ok(), no_data()], None), (Function::SetStmtAttr, None));
    assert_eq!(
        failure_of(
            vec![
                ok(),
                ok(),
                Event::Bound(Ok(())),
                Event::Returned(reply(SqlReturn::NeedData)),
                Event::ParamData(reply(SqlReturn::NoData), 1),
            ],
            None
        ),
        (Function::ParamData, None)
    );
}

#[test]
fn failed_binding_is_passed_on() {
    let step = execute_with_parameters(|| Ok("stmt"), None, ParameterCollection::new(1));
    let (actions, outcome) = drive(
        step,
        vec![
            ok(),
            ok(),
            Event::Bound(Err(Error::Driver { function: Function::BindParameter, diagnostic: None })),
        ],
    );
    assert_eq!(actions.last(), Some(&Action::BindParameters));
    match outcome {
        Some(Outcome::Error(Error::Driver { function, .. })) => {
            assert_eq!(function, Function::BindParameter)
        }
        _ => panic!("binding error expected"),
    }
}

#[test]
fn prepared_statement_with_one_delayed_parameter() {
    let step = execute_with_parameters(|| Ok("stmt"), None, one_delayed(1));
    let (actions, outcome) = drive(
        step,
        vec![
            ok(),
            ok(),
            Event::Bound(Ok(())),
            Event::Returned(reply(SqlReturn::NeedData)),
            Event::ParamData(reply(SqlReturn::NeedData), ParameterCollection::identity(1)),
            Event::Batch(Ok(Some(b"batch1".to_vec()))),
            ok(),
            Event::Batch(Ok(Some(b"batch2".to_vec()))),
            ok(),
            Event::Batch(Ok(None)),
            Event::ParamData(reply(SqlReturn::Success), 0),
            Event::ResultColumns(reply(SqlReturn::Success), 0),
        ],
    );
    assert!(matches!(outcome, Some(Outcome::Success(None))));
    let driver_calls: Vec<Action> = actions
        .into_iter()
        .filter(|action| !matches!(action, Action::NextBatch { .. }))
        .collect();
    assert_eq!(
        driver_calls,
        vec![
            Action::ResetParameters,
            Action::SetParamsetSize(1),
            Action::BindParameters,
            Action::Execute,
            Action::ParamData,
            Action::PutData(b"batch1".to_vec()),
            Action::PutData(b"batch2".to_vec()),
            Action::ParamData,
            Action::NumResultCols,
        ]
    );
}

#[test]
fn statement_can_be_reached_while_the_execution_waits() {
    let step = execute_with_parameters(|| Ok(String::from("stmt")), None, ParameterCollection::new(1));
    match step {
        Step::Call(mut execution, _) => {
            execution.statement_mut().push_str(" in use");
            assert_eq!(execution.statement_mut().as_str(), "stmt in use");
        }
        Step::Done(_) => panic!("execution must have begun"),
    }
}

#[test]
fn catalog_queries_leave_a_cursor() {
    match execute_columns("columns", reply(SqlReturn::Success)) {
        Outcome::Success(cursor) => assert_eq!(cursor.into_statement(), "columns"),
        _ => panic!("cursor expected"),
    }
    match execute_tables("tables", reply(SqlReturn::SuccessWithInfo)) {
        Outcome::Success(cursor) => assert_eq!(cursor.into_statement(), "tables"),
        _ => panic!("cursor expected"),
    }
}

#[test]
fn failed_catalog_queries_name_their_function() {
    let failed = || Reply { code: SqlReturn::Error, diagnostic: Some(diagnostic()) };
    match execute_columns("columns", failed()) {
        Outcome::Error(Error::Driver { function, diagnostic: record }) => {
            assert_eq!(function, Function::Columns);
            assert_eq!(record, Some(diagnostic()));
        }
        _ => panic!("error expected"),
    }
    match execute_tables("tables", reply(SqlReturn::NoData)) {
        Outcome::Error(Error::Driver { function, diagnostic }) => {
            assert_eq!(function, Function::Tables);
            assert_eq!(diagnostic, None);
        }
        _ => panic!("error expected"),
    }
}
