//! What the answers of the driver to the calls on a statement handle mean.
//!
//! Each function takes the answer to one kind of call, together with the
//! values the driver has written, and tells which of the shapes of an
//! [`Outcome`] the call has taken.

use vstd::prelude::*;
use crate::metadata::after_fill;
use crate::metadata::read_attribute;
use crate::metadata::AttributeRead;
use crate::metadata::AttributeReadView;
use crate::metadata::LengthUnit;
use crate::metadata::ReadStep;
use crate::metadata::ReadStepView;
use crate::outcome::Error;
use crate::outcome::Function;
use crate::outcome::Outcome;
use crate::outcome::ProgrammingError;
use crate::outcome::Reply;
use crate::outcome::SqlReturn;

verus! {

/// Whether a column or parameter may hold `NULL`.
#[derive(Debug, Clone, Copy, PartialEq, Eq, Structural)]
pub enum Nullability {
    /// The driver can not tell.
    Unknown,
    Nullable,
    NoNulls,
}

/// The type of a column or parameter as the driver describes it.
#[derive(Debug, Clone, Copy, PartialEq, Eq, Structural)]
pub struct DataType {
    /// Identifier of the SQL type.
    pub sql_type: i16,
    /// Size of the column or parameter. What it counts depends on the type.
    pub column_size: usize,
    /// Number of decimal digits, for the types which have them.
    pub decimal_digits: i16,
}

/// Description of a column in a result set.
#[derive(Debug, Clone, PartialEq, Eq)]
pub struct ColumnDescription {
    /// Name of the column, without terminating zero.
    pub name: Vec<u16>,
    pub nullability: Nullability,
    pub data_type: DataType,
}

/// Description of a parameter associated with a parameter marker in a
/// prepared statement.
#[derive(Debug, Clone, Copy, PartialEq, Eq, Structural)]
pub struct ParameterDescription {
    /// Indicates whether the parameter may be `NULL` or not.
    pub nullable: Nullability,
    /// The SQL type associated with that parameter.
    pub data_type: DataType,
}

/// A column description as the contracts speak of it.
pub struct ColumnDescriptionView {
    pub name: Seq<u16>,
    pub nullability: Nullability,
    pub data_type: DataType,
}

impl View for ColumnDescription {
    type V = ColumnDescriptionView;

    open spec fn view(&self) -> ColumnDescriptionView {
        ColumnDescriptionView {
            name: self.name@,
            nullability: self.nullability,
            data_type: self.data_type,
        }
    }
}

/// The description of a column which waits for the driver to fill the buffer
/// for the name.
#[derive(Debug)]
pub struct DescribeCol {
    name: AttributeRead,
}

/// How describing a column goes on.
#[derive(Debug)]
pub enum DescribeStep {
    /// The caller has the driver describe the column, with the buffer for
    /// the name, all of it, and hands the buffer back together with what the
    /// driver has written.
    Fill(DescribeCol, Vec<u16>),
    /// The description, or the reason why there is none.
    Done(Result<ColumnDescription, Error>),
}

/// A step as the contracts speak of it.
pub enum DescribeStepView {
    Fill(AttributeReadView, nat),
    Done(Result<ColumnDescriptionView, Error>),
}

impl View for DescribeCol {
    type V = AttributeReadView;

    closed spec fn view(&self) -> AttributeReadView {
        self.name@
    }
}

impl View for DescribeStep {
    type V = DescribeStepView;

    open spec fn view(&self) -> DescribeStepView {
        match *self {
            DescribeStep::Fill(describe, buffer) => DescribeStepView::Fill(
                describe@,
                buffer@.len(),
            ),
            DescribeStep::Done(Ok(description)) => DescribeStepView::Done(Ok(description@)),
            DescribeStep::Done(Err(error)) => DescribeStepView::Done(Err(error)),
        }
    }
}

/// The decision after the driver has described a column: the name is read
/// like any text whose length is not known beforehand. Once it is complete,
/// it makes up the description together with the type and the nullability
/// the driver has written along with it.
pub open spec fn described(
    v: AttributeReadView,
    buffer: Seq<u16>,
    reply: Reply,
    name_length: i16,
    data_type: DataType,
    nullability: Nullability,
) -> DescribeStepView {
    match after_fill(v, buffer, reply, name_length) {
        ReadStepView::Fill(w, capacity) => DescribeStepView::Fill(w, capacity),
        ReadStepView::Done(Ok(name)) => DescribeStepView::Done(
            Ok(ColumnDescriptionView { name, nullability, data_type }),
        ),
        ReadStepView::Done(Err(error)) => DescribeStepView::Done(Err(error)),
    }
}

/// The error of a driver which answers with a value `function` can not
/// answer with.
pub open spec fn invalid_value(function: Function) -> Error {
    Error::Driver { function, diagnostic: None }
}

/// The shape of a call which either succeeds or fails: running out of data
/// and asking for data are failures of such a call.
pub open spec fn completed(reply: Reply, function: Function) -> Outcome<()> {
    if reply.code.succeeded() {
        Outcome::Success(())
    } else {
        Outcome::Error(reply.failure(function))
    }
}

/// The shape of a call which fetches rows: it succeeds, fails, or finds that
/// there are no more rows.
pub open spec fn fetched(reply: Reply) -> Outcome<()> {
    match reply.code {
        SqlReturn::Success | SqlReturn::SuccessWithInfo => Outcome::Success(()),
        SqlReturn::NoData => Outcome::NoData,
        _ => Outcome::Error(reply.failure(Function::Fetch)),
    }
}

/// The shape of a call which sends a batch: the driver may take it and may
/// ask for more, it can not run out of data.
pub open spec fn sent(reply: Reply) -> Outcome<()> {
    match reply.code {
        SqlReturn::Success | SqlReturn::SuccessWithInfo => Outcome::Success(()),
        SqlReturn::NeedData => Outcome::NeedData,
        _ => Outcome::Error(reply.failure(Function::PutData)),
    }
}

/// The delayed parameter the driver wants the data of: the one it names if
/// it says that it needs data, none if it is content.
pub open spec fn wanted(reply: Reply, identity: usize) -> Outcome<Option<usize>> {
    match reply.code {
        SqlReturn::NeedData => Outcome::Success(Some(identity)),
        SqlReturn::Success | SqlReturn::SuccessWithInfo => Outcome::Success(None),
        _ => Outcome::Error(reply.failure(Function::ParamData)),
    }
}

/// The flag the driver reports of a column: `0` is false and `1` is true,
/// nothing else is a flag.
pub open spec fn flag(value: isize) -> Option<bool> {
    if value == 0 {
        Some(false)
    } else if value == 1 {
        Some(true)
    } else {
        None
    }
}

/// The identifier of an SQL type, which is a 16 bit number.
pub open spec fn type_identifier(value: isize) -> Option<i16> {
    if i16::MIN <= value <= i16::MAX {
        Some(value as i16)
    } else {
        None
    }
}

/// What a numeric attribute read by means of `SQLColAttributeW` amounts to,
/// `meaning` being what each number stands for.
pub open spec fn attribute<T>(reply: Reply, meaning: Option<T>) -> Outcome<T> {
    if !reply.code.succeeded() {
        Outcome::Error(reply.failure(Function::ColAttribute))
    } else {
        match meaning {
            Some(value) => Outcome::Success(value),
            None => Outcome::Error(invalid_value(Function::ColAttribute)),
        }
    }
}

/// A batch can be sent to the driver only if there is something in it.
pub fn check_batch(batch: &[u8]) -> (checked: Result<(), Error>)
    ensures
        batch@.len() > 0 ==> checked == Ok::<(), Error>(()),
        batch@.len() == 0 ==> checked == Err::<(), Error>(
            Error::Programming(ProgrammingError::EmptyBatch),
        ),
{
    if batch.len() == 0 {
        Err(Error::Programming(ProgrammingError::EmptyBatch))
    } else {
        Ok(())
    }
}

/// The outcome of executing a statement text. `NeedData` says that there are
/// delayed parameters to send. `NoData` is the outcome of an update or delete
/// which does not affect any row.
pub fn exec_direct(reply: Reply) -> (outcome: Outcome<()>)
    ensures
        outcome == reply.outcome(Function::ExecDirect),
{
    reply.into_outcome(Function::ExecDirect)
}

/// The outcome of executing a prepared statement. `NeedData` says that there
/// are delayed parameters to send. `NoData` is the outcome of an update or
/// delete which does not affect any row.
pub fn execute(reply: Reply) -> (outcome: Outcome<()>)
    ensures
        outcome == reply.outcome(Function::Execute),
{
    reply.into_outcome(Function::Execute)
}

/// The outcome of a call to `function` which does nothing but succeed or
/// fail, like binding a buffer or setting an attribute.
pub fn complete(reply: Reply, function: Function) -> (outcome: Outcome<()>)
    ensures
        outcome == completed(reply, function),
{
    if reply.code.is_success() {
        Outcome::Success(())
    } else {
        Outcome::Error(reply.into_failure(function))
    }
}

/// The outcome of preparing a statement.
pub fn prepare(reply: Reply) -> (outcome: Outcome<()>)
    ensures
        outcome == completed(reply, Function::Prepare),
{
    complete(reply, Function::Prepare)
}

/// The outcome of releasing the parameters bound to a statement.
pub fn reset_parameters(reply: Reply) -> (outcome: Outcome<()>)
    ensures
        outcome == completed(reply, Function::FreeStmt),
{
    complete(reply, Function::FreeStmt)
}

/// The outcome of fetching the next row set. `NoData` says that the result
/// set has no more rows.
pub fn fetch(reply: Reply) -> (outcome: Outcome<()>)
    ensures
        outcome == fetched(reply),
{
    match reply.code {
        SqlReturn::Success | SqlReturn::SuccessWithInfo => Outcome::Success(()),
        SqlReturn::NoData => Outcome::NoData,
        _ => Outcome::Error(reply.into_failure(Function::Fetch)),
    }
}

/// The outcome of binding a parameter to a parameter marker.
pub fn bind_parameter(reply: Reply) -> (outcome: Outcome<()>)
    ensures
        outcome == completed(reply, Function::BindParameter),
{
    complete(reply, Function::BindParameter)
}

/// The outcome of asking for the next delayed parameter: the identity of the
/// parameter the driver wants the data of, if it wants any. `identity` is
/// what the driver has written, which means something only if it needs data.
pub fn param_data(reply: Reply, identity: usize) -> (outcome: Outcome<Option<usize>>)
    ensures
        outcome == wanted(reply, identity),
{
    match reply.code {
        SqlReturn::NeedData => Outcome::Success(Some(identity)),
        SqlReturn::Success | SqlReturn::SuccessWithInfo => Outcome::Success(None),
        _ => Outcome::Error(reply.into_failure(Function::ParamData)),
    }
}

/// The outcome of sending a batch of a delayed parameter.
pub fn put_binary_batch(reply: Reply) -> (outcome: Outcome<()>)
    ensures
        outcome == sent(reply),
{
    match reply.code {
        SqlReturn::Success | SqlReturn::SuccessWithInfo => Outcome::Success(()),
        SqlReturn::NeedData => Outcome::NeedData,
        _ => Outcome::Error(reply.into_failure(Function::PutData)),
    }
}

/// The number of columns of the result set, `count` being the number the
/// driver has written. A statement without a result set has zero columns.
pub fn num_result_cols(reply: Reply, count: i16) -> (outcome: Outcome<i16>)
    ensures
        outcome == completed(reply, Function::NumResultCols).with(count),
{
    if reply.code.is_success() {
        Outcome::Success(count)
    } else {
        Outcome::Error(reply.into_failure(Function::NumResultCols))
    }
}

/// A numeric attribute of a column, `value` being the number the driver has
/// written.
pub fn numeric_col_attribute(reply: Reply, value: isize) -> (outcome: Outcome<isize>)
    ensures
        outcome == attribute(reply, Some(value)),
{
    if reply.code.is_success() {
        Outcome::Success(value)
    } else {
        Outcome::Error(reply.into_failure(Function::ColAttribute))
    }
}

/// `true` if a column is unsigned or not of a numeric type, `false`
/// otherwise. `value` is the attribute as the driver has written it: a driver
/// which writes anything but `0` or `1` is in error.
pub fn is_unsigned_column(reply: Reply, value: isize) -> (outcome: Outcome<bool>)
    ensures
        outcome == attribute(reply, flag(value)),
{
    if !reply.code.is_success() {
        Outcome::Error(reply.into_failure(Function::ColAttribute))
    } else if value == 0 {
        Outcome::Success(false)
    } else if value == 1 {
        Outcome::Success(true)
    } else {
        Outcome::Error(Error::Driver { function: Function::ColAttribute, diagnostic: None })
    }
}

/// The identifier of the SQL type of a column, `value` being the attribute as
/// the driver has written it.
pub fn col_type(reply: Reply, value: isize) -> (outcome: Outcome<i16>)
    ensures
        outcome == attribute(reply, type_identifier(value)),
{
    if !reply.code.is_success() {
        Outcome::Error(reply.into_failure(Function::ColAttribute))
    } else if value < i16::MIN as isize || value > i16::MAX as isize {
        Outcome::Error(Error::Driver { function: Function::ColAttribute, diagnostic: None })
    } else {
        Outcome::Success(value as i16)
    }
}

/// The identifier of the concise SQL type of a column. For the datetime and
/// interval types this is the type itself rather than its class.
pub fn col_concise_type(reply: Reply, value: isize) -> (outcome: Outcome<i16>)
    ensures
        outcome == attribute(reply, type_identifier(value)),
{
    col_type(reply, value)
}

/// The description of a parameter marker, made up of what the driver has
/// written about it.
pub fn describe_param(reply: Reply, data_type: DataType, nullable: Nullability) -> (outcome: Outcome<
    ParameterDescription,
>)
    ensures
        outcome == completed(reply, Function::DescribeParam).with(
            ParameterDescription { nullable, data_type },
        ),
{
    if reply.code.is_success() {
        Outcome::Success(ParameterDescription { nullable, data_type })
    } else {
        Outcome::Error(reply.into_failure(Function::DescribeParam))
    }
}

/// Starts to read the name of a column. The driver reports the length of
/// the name in bytes.
///
/// * `buffer`: The buffer to read into.
/// * `capacity`: Number of characters to offer to the driver with the first
///   call.
pub fn col_name(buffer: Vec<u16>, capacity: usize) -> (step: ReadStep)
    ensures
        step@ == ReadStepView::Fill(
            AttributeReadView {
                function: Function::ColAttribute,
                unit: LengthUnit::Bytes,
                retried: false,
            },
            capacity as nat,
        ),
{
    read_attribute(Function::ColAttribute, LengthUnit::Bytes, buffer, capacity)
}

/// Starts to describe a column. The driver reports the length of its name in
/// characters.
///
/// * `name`: The buffer to read the name into.
/// * `capacity`: Number of characters to offer to the driver with the first
///   call.
pub fn describe_col(name: Vec<u16>, capacity: usize) -> (step: DescribeStep)
    ensures
        step@ == DescribeStepView::Fill(
            AttributeReadView {
                function: Function::DescribeCol,
                unit: LengthUnit::Characters,
                retried: false,
            },
            capacity as nat,
        ),
{
    let (read, buffer) = AttributeRead::begin(
        Function::DescribeCol,
        LengthUnit::Characters,
        name,
        capacity,
    );
    DescribeStep::Fill(DescribeCol { name: read }, buffer)
}

impl DescribeCol {
    /// Goes on after the driver has described the column.
    ///
    /// * `buffer`: The buffer the driver has written the name to.
    /// * `reply`: Answer of the driver to the call.
    /// * `name_length`: Length of the name as the driver reported it.
    /// * `data_type`, `nullability`: What the driver has written about the
    ///   column.
    pub fn filled(
        self,
        buffer: Vec<u16>,
        reply: Reply,
        name_length: i16,
        data_type: DataType,
        nullability: Nullability,
    ) -> (step: DescribeStep)
        ensures
            step@ == described(self@, buffer@, reply, name_length, data_type, nullability),
    {
        match self.name.filled(buffer, reply, name_length) {
            ReadStep::Fill(read, buffer) => DescribeStep::Fill(DescribeCol { name: read }, buffer),
            ReadStep::Done(Ok(name)) => DescribeStep::Done(
                Ok(ColumnDescription { name, nullability, data_type }),
            ),
            ReadStep::Done(Err(error)) => DescribeStep::Done(Err(error)),
        }
    }
}

} // verus!
