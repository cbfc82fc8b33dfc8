use odbc_api::outcome::{Diagnostic, Error, Function, Outcome, ProgrammingError, Reply, SqlReturn};
use odbc_api::statement::{
    bind_parameter, check_batch, col_concise_type, col_type, complete, describe_param, exec_direct,
    execute, fetch,
    is_unsigned_column, num_result_cols, numeric_col_attribute, param_data, prepare,
    put_binary_batch, reset_parameters, DataType, Nullability, ParameterDescription,
};

fn reply(code: SqlReturn) -> Reply {
    Reply { code, diagnostic: None }
}

fn failed() -> Reply {
    Reply { code: SqlReturn::Error, diagnostic: Some(record()) }
}

fn record() -> Diagnostic {
    Diagnostic { state: *b"HY000", native_error: -7, message: vec![0x6f, 0x68] }
}

/// The function and the diagnostic of the driver error in `outcome`.
fn driver_error<T>(outcome: Outcome<T>) -> (Function, Option<Diagnostic>) {
    match outcome {
        Outcome::Error(Error::Driver { function, diagnostic }) => (function, diagnostic),
        _ => panic!("driver error expected"),
    }
}

#[test]
fn unsigned_flag_is_false_for_zero() {
    assert!(matches!(is_unsigned_column(reply(SqlReturn::Success), 0), Outcome::Success(false)));
}

#[test]
fn unsigned_flag_is_true_for_one() {
    assert!(matches!(is_unsigned_column(reply(SqlReturn::Success), 1), Outcome::Success(true)));
}

#[test]
fn unsigned_flag_is_nothing_but_zero_or_one() {
    for value in [2, -1, 255, isize::MAX, isize::MIN] {
        assert_eq!(
            driver_error(is_unsigned_column(reply(SqlReturn::Success), value)),
            (Function::ColAttribute, None)
        );
    }
}

#[test]
fn unsigned_flag_of_a_failed_call_is_the_failure() {
    assert_eq!(driver_error(is_unsigned_column(failed(), 1)), (Function::ColAttribute, Some(record())));
}

#[test]
fn type_identifiers_have_sixteen_bits() {
    assert!(matches!(col_type(reply(SqlReturn::Success), 12), Outcome::Success(12)));
    assert!(matches!(col_type(reply(SqlReturn::Success), -9), Outcome::Success(-9)));
    assert!(matches!(col_type(reply(SqlReturn::Success), 32767), Outcome::Success(32767)));
    assert!(matches!(col_type(reply(SqlReturn::Success), -32768), Outcome::Success(-32768)));
    assert_eq!(
        driver_error(col_type(reply(SqlReturn::Success), 32768)),
        (Function::ColAttribute, None)
    );
    assert_eq!(
        driver_error(col_type(reply(SqlReturn::Success), -32769)),
        (Function::ColAttribute, None)
    );
    assert!(matches!(col_concise_type(reply(SqlReturn::SuccessWithInfo), 93), Outcome::Success(93)));
    assert_eq!(
        driver_error(col_concise_type(reply(SqlReturn::Success), 70000)),
        (Function::ColAttribute, None)
    );
    assert_eq!(driver_error(col_concise_type(failed(), 93)), (Function::ColAttribute, Some(record())));
}

#[test]
fn numeric_attribute_is_the_number_written() {
    assert!(matches!(
        numeric_col_attribute(reply(SqlReturn::Success), 4000),
        Outcome::Success(4000)
    ));
    assert!(matches!(
        numeric_col_attribute(reply(SqlReturn::SuccessWithInfo), -4),
        Outcome::Success(-4)
    ));
    assert_eq!(
        driver_error(numeric_col_attribute(failed(), 4000)),
        (Function::ColAttribute, Some(record()))
    );
    assert_eq!(
        driver_error(numeric_col_attribute(reply(SqlReturn::NoData), 4000)),
        (Function::ColAttribute, None)
    );
}

#[test]
fn execution_takes_all_four_shapes() {
    assert!(matches!(exec_direct(reply(SqlReturn::Success)), Outcome::Success(())));
    assert!(matches!(exec_direct(reply(SqlReturn::SuccessWithInfo)), Outcome::Success(())));
    assert!(matches!(exec_direct(reply(SqlReturn::NeedData)), Outcome::NeedData));
    assert!(matches!(exec_direct(reply(SqlReturn::NoData)), Outcome::NoData));
    assert_eq!(driver_error(exec_direct(failed())), (Function::ExecDirect, Some(record())));
    assert!(matches!(execute(reply(SqlReturn::Success)), Outcome::Success(())));
    assert!(matches!(execute(reply(SqlReturn::NeedData)), Outcome::NeedData));
    assert!(matches!(execute(reply(SqlReturn::NoData)), Outcome::NoData));
    assert_eq!(driver_error(execute(failed())), (Function::Execute, Some(record())));
    assert_eq!(
        driver_error(execute(reply(SqlReturn::StillExecuting))),
        (Function::Execute, None)
    );
}

#[test]
fn calls_which_succeed_or_fail() {
    assert!(matches!(prepare(reply(SqlReturn::Success)), Outcome::Success(())));
    assert_eq!(driver_error(prepare(reply(SqlReturn::NeedData))), (Function::Prepare, None));
    assert!(matches!(reset_parameters(reply(SqlReturn::SuccessWithInfo)), Outcome::Success(())));
    assert_eq!(driver_error(reset_parameters(failed())), (Function::FreeStmt, Some(record())));
    assert!(matches!(bind_parameter(reply(SqlReturn::Success)), Outcome::Success(())));
    assert_eq!(
        driver_error(bind_parameter(reply(SqlReturn::NoData))),
        (Function::BindParameter, None)
    );
}

#[test]
fn delayed_parameter_is_named_only_if_data_is_needed() {
    assert!(matches!(param_data(reply(SqlReturn::NeedData), 3), Outcome::Success(Some(3))));
    assert!(matches!(param_data(reply(SqlReturn::Success), 3), Outcome::Success(None)));
    assert!(matches!(param_data(reply(SqlReturn::SuccessWithInfo), 3), Outcome::Success(None)));
    assert_eq!(driver_error(param_data(reply(SqlReturn::NoData), 3)), (Function::ParamData, None));
    assert_eq!(
        driver_error(param_data(reply(SqlReturn::ParamDataAvailable), 3)),
        (Function::ParamData, None)
    );
    assert_eq!(driver_error(param_data(failed(), 3)), (Function::ParamData, Some(record())));
}

#[test]
fn batch_is_taken_or_more_is_asked_for() {
    assert!(matches!(put_binary_batch(reply(SqlReturn::Success)), Outcome::Success(())));
    assert!(matches!(put_binary_batch(reply(SqlReturn::NeedData)), Outcome::NeedData));
    assert_eq!(driver_error(put_binary_batch(reply(SqlReturn::NoData))), (Function::PutData, None));
    assert_eq!(driver_error(put_binary_batch(failed())), (Function::PutData, Some(record())));
}

#[test]
fn empty_batch_is_rejected() {
    assert!(matches!(check_batch(&[0]), Ok(())));
    assert!(matches!(check_batch(b"some bytes"), Ok(())));
    assert!(matches!(check_batch(&[]), Err(Error::Programming(ProgrammingError::EmptyBatch))));
}

#[test]
fn number_of_result_columns_is_the_number_written() {
    assert!(matches!(num_result_cols(reply(SqlReturn::Success), 0), Outcome::Success(0)));
    assert!(matches!(num_result_cols(reply(SqlReturn::Success), 12), Outcome::Success(12)));
    assert_eq!(driver_error(num_result_cols(failed(), 12)), (Function::NumResultCols, Some(record())));
}

#[test]
fn parameter_description_holds_what_the_driver_has_written() {
    let varchar = DataType { sql_type: 12, column_size: 255, decimal_digits: 0 };
    match describe_param(reply(SqlReturn::Success), varchar, Nullability::Nullable) {
        Outcome::Success(description) => {
            assert_eq!(
                description,
                ParameterDescription { nullable: Nullability::Nullable, data_type: varchar }
            );
            assert_eq!(description.data_type.column_size, 255);
        }
        _ => panic!("description expected"),
    }
    assert_eq!(
        driver_error(describe_param(failed(), varchar, Nullability::Unknown)),
        (Function::DescribeParam, Some(record()))
    );
}

#[test]
fn rows_are_fetched_until_there_is_no_data() {
    assert!(matches!(fetch(reply(SqlReturn::Success)), Outcome::Success(())));
    assert!(matches!(fetch(reply(SqlReturn::SuccessWithInfo)), Outcome::Success(())));
    assert!(matches!(fetch(reply(SqlReturn::NoData)), Outcome::NoData));
    assert_eq!(driver_error(fetch(reply(SqlReturn::NeedData))), (Function::Fetch, None));
    assert_eq!(driver_error(fetch(failed())), (Function::Fetch, Some(record())));
}

#[test]
fn call_without_a_result_is_complete_or_failed() {
    assert!(matches!(complete(reply(SqlReturn::Success), Function::BindCol), Outcome::Success(())));
    assert!(matches!(
        complete(reply(SqlReturn::SuccessWithInfo), Function::SetStmtAttr),
        Outcome::Success(())
    ));
    assert_eq!(
        driver_error(complete(reply(SqlReturn::NoData), Function::CloseCursor)),
        (Function::CloseCursor, None)
    );
    assert_eq!(
        driver_error(complete(failed(), Function::GetData)),
        (Function::GetData, Some(record()))
    );
}
