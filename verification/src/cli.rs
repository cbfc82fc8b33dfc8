//! The decisions of a command line tool which moves data between a data
//! source and CSV: how to connect given what the user has specified, which
//! query to run and what the statement looks like which inserts a CSV.

use vstd::prelude::*;
use vstd::string::StringExecFns;

verus! {

/// What the user has specified in order to identify the data source.
#[derive(Debug, Clone)]
pub struct ConnectOpts {
    /// Ask the user for whatever the connection string is missing.
    pub prompt: bool,
    /// Connection string of the data source.
    pub connection_string: Option<String>,
    /// Data source name. Takes precedence over the connection string.
    pub dsn: Option<String>,
    /// User to log in with. Appended to a connection string as its `UID`
    /// attribute.
    pub user: Option<String>,
    /// Password to log in with. Appended to a connection string as its `PWD`
    /// attribute.
    pub password: Option<String>,
}

/// Whether the driver may ask the user to complete a connection string.
#[derive(Debug, Clone, Copy, PartialEq, Eq, Structural)]
pub enum DriverCompleteOption {
    NoPrompt,
    Complete,
}

/// The way to open a connection.
#[derive(Debug, Clone, PartialEq, Eq)]
pub enum Connect {
    /// Connect to a data source by its name.
    DataSource { dsn: String, user: String, password: String },
    /// Connect using a connection string.
    ConnectionString { connection_string: String, completion: DriverCompleteOption },
}

/// The reason why no connection can be opened with what has been specified.
#[derive(Debug, Clone, Copy, PartialEq, Eq, Structural)]
pub enum ConnectError {
    /// The user is to be prompted on a platform which has no dialog for it.
    PromptNotSupported,
    /// Neither a data source name nor a connection string has been
    /// specified, and the user is not to be prompted either.
    NoDataSource,
}

impl ConnectError {
    /// What to tell the user.
    pub open spec fn spec_message(self) -> Seq<char> {
        match self {
            ConnectError::PromptNotSupported => "--prompt is only supported on windows."@,
            ConnectError::NoDataSource =>
                "Either DSN, connection string or prompt must be specified."@,
        }
    }

    pub fn message(self) -> (message: &'static str)
        ensures
            message@ == self.spec_message(),
    {
        match self {
            ConnectError::PromptNotSupported => "--prompt is only supported on windows.",
            ConnectError::NoDataSource =>
                "Either DSN, connection string or prompt must be specified.",
        }
    }
}

pub struct ConnectOptsView {
    pub prompt: bool,
    pub connection_string: Option<Seq<char>>,
    pub dsn: Option<Seq<char>>,
    pub user: Option<Seq<char>>,
    pub password: Option<Seq<char>>,
}

pub enum ConnectView {
    DataSource { dsn: Seq<char>, user: Seq<char>, password: Seq<char> },
    ConnectionString { connection_string: Seq<char>, completion: DriverCompleteOption },
}

/// The text of an optional string.
pub open spec fn text_of(text: Option<String>) -> Option<Seq<char>> {
    match text {
        Some(text) => Some(text@),
        None => None,
    }
}

impl View for ConnectOpts {
    type V = ConnectOptsView;

    open spec fn view(&self) -> ConnectOptsView {
        ConnectOptsView {
            prompt: self.prompt,
            connection_string: text_of(self.connection_string),
            dsn: text_of(self.dsn),
            user: text_of(self.user),
            password: text_of(self.password),
        }
    }
}

impl View for Connect {
    type V = ConnectView;

    open spec fn view(&self) -> ConnectView {
        match *self {
            Connect::DataSource { dsn, user, password } => ConnectView::DataSource {
                dsn: dsn@,
                user: user@,
                password: password@,
            },
            Connect::ConnectionString { connection_string, completion } =>
                ConnectView::ConnectionString { connection_string: connection_string@, completion },
        }
    }
}

/// The value holds a character which has a meaning of its own in a
/// connection string, so that it can not be put there as it is.
pub open spec fn needs_escaping(value: Seq<char>) -> bool {
    value.contains(';') || value.contains('+')
}

/// The value with each closing brace in it written twice.
pub open spec fn closing_braces_doubled(value: Seq<char>) -> Seq<char>
    decreases value.len(),
{
    if value.len() == 0 {
        Seq::empty()
    } else if value.last() == '}' {
        closing_braces_doubled(value.drop_last()) + seq!['}', '}']
    } else {
        closing_braces_doubled(value.drop_last()).push(value.last())
    }
}

/// The value as it is written into a connection string. A value which needs
/// escaping is put into braces, and the closing braces in it are doubled.
/// Any other value is written as it is.
pub open spec fn escaped(value: Seq<char>) -> Seq<char> {
    if needs_escaping(value) {
        seq!['{'] + closing_braces_doubled(value) + seq!['}']
    } else {
        value
    }
}

/// The attribute `key` with its value, as appended to a connection string.
/// Nothing is appended for a value which has not been specified.
pub open spec fn attribute(key: Seq<char>, value: Option<Seq<char>>) -> Seq<char> {
    match value {
        Some(value) => key + seq!['='] + escaped(value) + seq![';'],
        None => Seq::empty(),
    }
}

/// The connection string with the credentials appended to it.
pub open spec fn connection_string(opt: ConnectOptsView) -> Seq<char> {
    opt.connection_string.unwrap_or(Seq::empty()) + attribute("UID"@, opt.user) + attribute(
        "PWD"@,
        opt.password,
    )
}

/// The way to connect, if there is one.
///
/// * A data source name is all it takes. The credentials go with it, empty
///   ones if they are not specified.
/// * Without a data source name the connection string is used, with the
///   credentials appended. This is an error if the user is to be prompted
///   but can not be on this platform, or if there is no connection string
///   and the user is not to be prompted for one.
pub open spec fn connect(opt: ConnectOptsView, can_prompt: bool) -> Result<
    ConnectView,
    ConnectError,
> {
    if let Some(dsn) = opt.dsn {
        Ok(
            ConnectView::DataSource {
                dsn,
                user: opt.user.unwrap_or(Seq::empty()),
                password: opt.password.unwrap_or(Seq::empty()),
            },
        )
    } else if opt.prompt && !can_prompt {
        Err(ConnectError::PromptNotSupported)
    } else if !opt.prompt && opt.connection_string is None {
        Err(ConnectError::NoDataSource)
    } else {
        Ok(
            ConnectView::ConnectionString {
                connection_string: connection_string(opt),
                completion: if opt.prompt {
                    DriverCompleteOption::Complete
                } else {
                    DriverCompleteOption::NoPrompt
                },
            },
        )
    }
}

/// `String::push` of the standard library, which appends one character to
/// the end of the string.
#[verifier::external_body]
fn push_char(text: &mut String, c: char)
    ensures
        final(text)@ == old(text)@.push(c),
{
    text.push(c);
}

fn is_special(value: &str) -> (special: bool)
    ensures
        special == needs_escaping(value@),
{
    for c in chars: value.chars()
        invariant
            chars.seq() == value@,
            forall|j: int| 0 <= j < chars.index() ==> value@[j] != ';' && value@[j] != '+',
    {
        if c == ';' || c == '+' {
            return true;
        }
    }
    false
}

/// Escapes a value so it can be put into a connection string as the value of
/// an attribute, e.g. a password as the value of `PWD`.
pub fn escape_attribute_value(unescaped: &str) -> (value: String)
    ensures
        value@ == escaped(unescaped@),
{
    if !is_special(unescaped) {
        return String::from_str(unescaped);
    }
    let mut value = String::from_str("{");
    proof {
        reveal_strlit("{");
    }
    for c in chars: unescaped.chars()
        invariant
            chars.seq() == unescaped@,
            value@ == seq!['{'] + closing_braces_doubled(unescaped@.take(chars.index())),
    {
        proof {
            let next = unescaped@.take(chars.index() + 1);
            assert(next.drop_last() =~= unescaped@.take(chars.index()));
        }
        if c == '}' {
            push_char(&mut value, '}');
            push_char(&mut value, '}');
        } else {
            push_char(&mut value, c);
        }
    }
    push_char(&mut value, '}');
    proof {
        assert(unescaped@.take(unescaped@.len() as int) =~= unescaped@);
    }
    value
}

fn append_attribute(text: &mut String, key: &str, value: &Option<String>)
    ensures
        final(text)@ == old(text)@ + attribute(key@, text_of(*value)),
{
    match value {
        Some(value) => {
            text.append(key);
            push_char(text, '=');
            let escaped = escape_attribute_value(value.as_str());
            text.append(escaped.as_str());
            push_char(text, ';');
        },
        None => {},
    }
}

fn text_or_empty(text: &Option<String>) -> (owned: String)
    ensures
        owned@ == text_of(*text).unwrap_or(Seq::empty()),
{
    match text {
        Some(text) => text.clone(),
        None => String::new(),
    }
}

/// Tells how to open the connection `opt` specifies.
///
/// * `can_prompt`: The platform has a dialog to prompt the user with.
pub fn open_connection(opt: &ConnectOpts, can_prompt: bool) -> (way: Result<Connect, ConnectError>)
    ensures
        match way {
            Ok(way) => connect(opt@, can_prompt) == Ok::<ConnectView, ConnectError>(way@),
            Err(error) => connect(opt@, can_prompt) == Err::<ConnectView, ConnectError>(error),
        },
{
    if let Some(dsn) = &opt.dsn {
        return Ok(
            Connect::DataSource {
                dsn: dsn.clone(),
                user: text_or_empty(&opt.user),
                password: text_or_empty(&opt.password),
            },
        );
    }
    if opt.prompt && !can_prompt {
        return Err(ConnectError::PromptNotSupported);
    }
    if !opt.prompt && opt.connection_string.is_none() {
        return Err(ConnectError::NoDataSource);
    }
    // Append user and or password to connection string
    let mut cs = text_or_empty(&opt.connection_string);
    append_attribute(&mut cs, "UID", &opt.user);
    append_attribute(&mut cs, "PWD", &opt.password);
    let completion = if opt.prompt {
        DriverCompleteOption::Complete
    } else {
        DriverCompleteOption::NoPrompt
    };
    Ok(Connect::ConnectionString { connection_string: cs, completion })
}

/// Where the text of a query is to be taken from.
#[derive(Debug, Clone, PartialEq, Eq)]
pub enum QuerySource<P> {
    /// The text itself has been specified.
    Literal(String),
    /// The text is to be read from a file.
    File(P),
}

/// Neither a query nor a file to read it from has been specified.
#[derive(Debug, Clone, Copy, PartialEq, Eq, Structural)]
pub struct QueryMissing;

impl QueryMissing {
    /// What to tell the user.
    pub fn message(self) -> (message: &'static str)
        ensures
            message@ == "Either `--query` or `--sql-file` must be specified."@,
    {
        "Either `--query` or `--sql-file` must be specified."
    }
}

/// Picks the query to run: the one specified literally, or else the one in
/// the file specified.
pub fn query_source<P>(query: Option<String>, sql_file: Option<P>) -> (source: Result<
    QuerySource<P>,
    QueryMissing,
>)
    ensures
        source == match (query, sql_file) {
            (Some(literal), _) => Ok::<QuerySource<P>, QueryMissing>(QuerySource::Literal(literal)),
            (None, Some(path)) => Ok(QuerySource::File(path)),
            (None, None) => Err(QueryMissing),
        },
{
    match (query, sql_file) {
        (Some(literal), _) => Ok(QuerySource::Literal(literal)),
        (None, Some(path)) => Ok(QuerySource::File(path)),
        (None, None) => Err(QueryMissing),
    }
}

/// The texts of `names`.
pub open spec fn texts(names: Seq<String>) -> Seq<Seq<char>> {
    names.map_values(|name: String| name@)
}

/// The items one after the other, with the separator in between.
pub open spec fn joined(items: Seq<Seq<char>>, separator: Seq<char>) -> Seq<char>
    decreases items.len(),
{
    if items.len() == 0 {
        Seq::empty()
    } else if items.len() == 1 {
        items[0]
    } else {
        joined(items.drop_last(), separator) + separator + items.last()
    }
}

/// One parameter marker for each of `n` columns.
pub open spec fn markers(n: nat) -> Seq<Seq<char>> {
    Seq::new(n, |i: int| "?"@)
}

/// The statement which inserts one row into `table`, with a parameter marker
/// for the value of each of the columns.
pub open spec fn insert_statement(table: Seq<char>, columns: Seq<Seq<char>>) -> Seq<char> {
    "INSERT INTO "@ + table + " ("@ + joined(columns, ", "@) + ") VALUES ("@ + joined(
        markers(columns.len()),
        ", "@,
    ) + ");"@
}

/// Text of the statement used to insert the rows of a CSV into `table`, the
/// headline of the CSV being `column_names`. Neither the name of the table
/// nor those of the columns are escaped.
pub fn insert_statement_text(table: &str, column_names: &Vec<String>) -> (text: String)
    ensures
        text@ == insert_statement(table@, texts(column_names@)),
{
    let ghost columns = texts(column_names@);
    let mut names = String::new();
    let mut values = String::new();
    let mut i: usize = 0;
    while i < column_names.len()
        invariant
            i <= column_names@.len(),
            columns == texts(column_names@),
            names@ == joined(columns.take(i as int), ", "@),
            values@ == joined(markers(i as nat), ", "@),
        decreases column_names@.len() - i,
    {
        if i > 0 {
            names.append(", ");
            values.append(", ");
        }
        names.append(column_names[i].as_str());
        values.append("?");
        proof {
            let longer = columns.take(i + 1);
            assert(longer.drop_last() =~= columns.take(i as int));
            assert(markers((i + 1) as nat).drop_last() =~= markers(i as nat));
        }
        i += 1;
    }
    proof {
        assert(columns.take(column_names@.len() as int) =~= columns);
    }
    let mut text = String::from_str("INSERT INTO ");
    text.append(table);
    text.append(" (");
    text.append(names.as_str());
    text.append(") VALUES (");
    text.append(values.as_str());
    text.append(");");
    text
}

} // verus!
