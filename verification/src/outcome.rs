//! The result shape shared by every driver call: success, failure, no data or
//! need data.

use vstd::prelude::*;

verus! {

/// `std::io::Error`, the cause of a failed read from a blob. Nothing is
/// claimed about it: the value is only carried from the place where the read
/// failed to the error that reports it.
#[verifier::external_type_specification]
#[verifier::external_body]
pub struct ExIoError(std::io::Error);

/// The code a driver call returned.
#[derive(Debug, Clone, Copy, PartialEq, Eq, Structural)]
pub enum SqlReturn {
    Success,
    SuccessWithInfo,
    NoData,
    NeedData,
    StillExecuting,
    ParamDataAvailable,
    InvalidHandle,
    Error,
    /// A code the interface does not define.
    Other(i16),
}

impl SqlReturn {
    /// The call did what it was asked to do, with or without a warning.
    pub open spec fn succeeded(self) -> bool {
        self == SqlReturn::Success || self == SqlReturn::SuccessWithInfo
    }

    pub fn is_success(self) -> (yes: bool)
        ensures
            yes == self.succeeded(),
    {
        match self {
            SqlReturn::Success | SqlReturn::SuccessWithInfo => true,
            _ => false,
        }
    }
}

/// The driver function a call went to.
#[derive(Debug, Clone, Copy, PartialEq, Eq, Structural)]
pub enum Function {
    AllocHandle,
    BindCol,
    BindParameter,
    CloseCursor,
    ColAttribute,
    Columns,
    Connect,
    DataSources,
    DescribeCol,
    DescribeParam,
    Disconnect,
    DriverConnect,
    Drivers,
    ExecDirect,
    Execute,
    Fetch,
    FreeStmt,
    GetData,
    NumResultCols,
    ParamData,
    Prepare,
    PutData,
    SetEnvAttr,
    SetStmtAttr,
    Tables,
}

impl Function {
    /// The name of the function in the driver's interface.
    pub open spec fn spec_name(self) -> Seq<char> {
        match self {
            Function::AllocHandle => "SQLAllocHandle"@,
            Function::BindCol => "SQLBindCol"@,
            Function::BindParameter => "SQLBindParameter"@,
            Function::CloseCursor => "SQLCloseCursor"@,
            Function::ColAttribute => "SQLColAttributeW"@,
            Function::Columns => "SQLColumnsW"@,
            Function::Connect => "SQLConnectW"@,
            Function::DataSources => "SQLDataSourcesW"@,
            Function::DescribeCol => "SQLDescribeColW"@,
            Function::DescribeParam => "SQLDescribeParam"@,
            Function::Disconnect => "SQLDisconnect"@,
            Function::DriverConnect => "SQLDriverConnectW"@,
            Function::Drivers => "SQLDriversW"@,
            Function::ExecDirect => "SQLExecDirectW"@,
            Function::Execute => "SQLExecute"@,
            Function::Fetch => "SQLFetch"@,
            Function::FreeStmt => "SQLFreeStmt"@,
            Function::GetData => "SQLGetData"@,
            Function::NumResultCols => "SQLNumResultCols"@,
            Function::ParamData => "SQLParamData"@,
            Function::Prepare => "SQLPrepareW"@,
            Function::PutData => "SQLPutData"@,
            Function::SetEnvAttr => "SQLSetEnvAttr"@,
            Function::SetStmtAttr => "SQLSetStmtAttrW"@,
            Function::Tables => "SQLTablesW"@,
        }
    }

    pub fn name(self) -> (name: &'static str)
        ensures
            name@ == self.spec_name(),
    {
        match self {
            Function::AllocHandle => "SQLAllocHandle",
            Function::BindCol => "SQLBindCol",
            Function::BindParameter => "SQLBindParameter",
            Function::CloseCursor => "SQLCloseCursor",
            Function::ColAttribute => "SQLColAttributeW",
            Function::Columns => "SQLColumnsW",
            Function::Connect => "SQLConnectW",
            Function::DataSources => "SQLDataSourcesW",
            Function::DescribeCol => "SQLDescribeColW",
            Function::DescribeParam => "SQLDescribeParam",
            Function::Disconnect => "SQLDisconnect",
            Function::DriverConnect => "SQLDriverConnectW",
            Function::Drivers => "SQLDriversW",
            Function::ExecDirect => "SQLExecDirectW",
            Function::Execute => "SQLExecute",
            Function::Fetch => "SQLFetch",
            Function::FreeStmt => "SQLFreeStmt",
            Function::GetData => "SQLGetData",
            Function::NumResultCols => "SQLNumResultCols",
            Function::ParamData => "SQLParamData",
            Function::Prepare => "SQLPrepareW",
            Function::PutData => "SQLPutData",
            Function::SetEnvAttr => "SQLSetEnvAttr",
            Function::SetStmtAttr => "SQLSetStmtAttrW",
            Function::Tables => "SQLTablesW",
        }
    }
}

/// One diagnostic record of the driver, as it was read from the handle.
#[derive(Debug, Clone, PartialEq, Eq)]
pub struct Diagnostic {
    /// The five characters of the SQLSTATE.
    pub state: [u8; 5],
    /// Error code of the data source.
    pub native_error: i32,
    /// Message text, without terminating zero.
    pub message: Vec<u16>,
}

/// What came back from one driver call: the return code and, where the caller
/// fetched one, the diagnostic record that belongs to it.
#[derive(Debug, Clone, PartialEq, Eq)]
pub struct Reply {
    pub code: SqlReturn,
    pub diagnostic: Option<Diagnostic>,
}

/// A defect on the calling side of the protocol.
#[derive(Debug, Clone, Copy, PartialEq, Eq, Structural)]
pub enum ProgrammingError {
    /// A blob handed out a batch without any bytes in it.
    EmptyBatch,
    /// The driver asked for the data of a parameter that has not been bound
    /// as a delayed parameter.
    UnknownDelayedParameter,
    /// An answer was handed in that does not belong to the call waited for.
    UnexpectedEvent,
}

#[derive(Debug)]
pub enum Error {
    /// A driver call did not succeed, or answered with a value the interface
    /// rules out. A diagnostic is attached if one was available.
    Driver { function: Function, diagnostic: Option<Diagnostic> },
    /// Pulling the next batch from a blob failed.
    InputReadFailure(std::io::Error),
    Programming(ProgrammingError),
}

/// Result of a driver call. Which of the four shapes a call can take is part
/// of the contract of each operation.
#[derive(Debug)]
pub enum Outcome<T> {
    Success(T),
    Error(Error),
    NoData,
    NeedData,
}

impl Reply {
    /// The error reported if the call to `function` which has been answered
    /// with `self` counts as failed.
    pub open spec fn failure(self, function: Function) -> Error {
        Error::Driver { function, diagnostic: self.diagnostic }
    }

    /// The shape of the answer. Both success codes are `Success`, `NoData`
    /// and `NeedData` keep their meaning, every other code is a failure of
    /// `function`.
    pub open spec fn outcome(self, function: Function) -> Outcome<()> {
        match self.code {
            SqlReturn::Success | SqlReturn::SuccessWithInfo => Outcome::Success(()),
            SqlReturn::NoData => Outcome::NoData,
            SqlReturn::NeedData => Outcome::NeedData,
            _ => Outcome::Error(self.failure(function)),
        }
    }

    pub fn into_failure(self, function: Function) -> (error: Error)
        ensures
            error == self.failure(function),
    {
        Error::Driver { function, diagnostic: self.diagnostic }
    }

    pub fn into_outcome(self, function: Function) -> (outcome: Outcome<()>)
        ensures
            outcome == self.outcome(function),
    {
        match self.code {
            SqlReturn::Success | SqlReturn::SuccessWithInfo => Outcome::Success(()),
            SqlReturn::NoData => Outcome::NoData,
            SqlReturn::NeedData => Outcome::NeedData,
            _ => Outcome::Error(self.into_failure(function)),
        }
    }
}

impl<T> Outcome<T> {
    /// The two way split for operations which can neither run out of data nor
    /// ask for more: `NoData` and `NeedData` count as failures of `function`.
    pub open spec fn result(self, function: Function) -> Result<T, Error> {
        match self {
            Outcome::Success(value) => Ok(value),
            Outcome::Error(error) => Err(error),
            Outcome::NoData | Outcome::NeedData => Err(
                Error::Driver { function, diagnostic: None },
            ),
        }
    }

    /// The same outcome, carrying `value` in case of success.
    pub open spec fn with<U>(self, value: U) -> Outcome<U> {
        match self {
            Outcome::Success(_) => Outcome::Success(value),
            Outcome::Error(error) => Outcome::Error(error),
            Outcome::NoData => Outcome::NoData,
            Outcome::NeedData => Outcome::NeedData,
        }
    }

    pub fn into_result(self, function: Function) -> (result: Result<T, Error>)
        ensures
            result == self.result(function),
    {
        match self {
            Outcome::Success(value) => Ok(value),
            Outcome::Error(error) => Err(error),
            Outcome::NoData | Outcome::NeedData => Err(
                Error::Driver { function, diagnostic: None },
            ),
        }
    }

    pub fn on_success<U>(self, value: U) -> (outcome: Outcome<U>)
        ensures
            outcome == self.with(value),
    {
        match self {
            Outcome::Success(_) => Outcome::Success(value),
            Outcome::Error(error) => Outcome::Error(error),
            Outcome::NoData => Outcome::NoData,
            Outcome::NeedData => Outcome::NeedData,
        }
    }
}

} // verus!
