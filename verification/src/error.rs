//! The error taxonomy.
//!
//! Failures are classified at two lifecycle phases with two disjoint
//! variant sets: [`ConnectError`] while a connection is being established,
//! [`Error`] once it is live.  Each variant carries its underlying cause
//! where one exists — a server report, a transport fault, a cryptographic
//! fault — and never flattens it into a string, so a caller can both show
//! a self-describing message and walk the cause chain for diagnostics.

use vstd::prelude::*;

use crate::failures::{TlsError, TransportError};
use crate::sqlstate::valid_sqlstate;
use crate::types::Type;

verus! {

/// The position of a server-reported error within a query.
#[derive(Clone, Debug, PartialEq, Eq)]
pub enum ErrorPosition {
    /// A byte position in the query the client submitted.
    Normal(u32),
    /// A position in a query the server generated internally, for example
    /// from a view or a function; the client never submitted that text, so
    /// it is carried along for diagnostics.
    Internal {
        /// The byte position within the internally generated query.
        position: u32,
        /// The full text of the internally generated query, an opaque copy
        /// of what the server supplied.
        query: String,
    },
}

/// The structured error report of a database server: the SQLSTATE status
/// code, the human-readable message and severity, and the optional
/// diagnostic fields the server may attach.  Immutable once constructed.
#[derive(Clone, Debug, PartialEq, Eq)]
pub struct DbError {
    severity: String,
    code: String,
    message: String,
    detail: Option<String>,
    hint: Option<String>,
    position: Option<ErrorPosition>,
    schema: Option<String>,
    table: Option<String>,
    column: Option<String>,
    constraint: Option<String>,
}

impl DbError {
    /// The severity the server reported.
    pub closed spec fn spec_severity(self) -> Seq<char> {
        self.severity@
    }

    /// The five-character SQLSTATE status code.
    pub closed spec fn spec_code(self) -> Seq<char> {
        self.code@
    }

    /// The human-readable message.
    pub closed spec fn spec_message(self) -> Seq<char> {
        self.message@
    }

    /// The optional detail text.
    pub closed spec fn spec_detail(self) -> Option<Seq<char>> {
        match self.detail {
            Some(d) => Some(d@),
            None => None,
        }
    }

    /// The optional hint text.
    pub closed spec fn spec_hint(self) -> Option<Seq<char>> {
        match self.hint {
            Some(h) => Some(h@),
            None => None,
        }
    }

    /// The optional error position.
    pub closed spec fn spec_position(self) -> Option<ErrorPosition> {
        self.position
    }

    /// The optional schema name.
    pub closed spec fn spec_schema(self) -> Option<Seq<char>> {
        match self.schema {
            Some(s) => Some(s@),
            None => None,
        }
    }

    /// The optional table name.
    pub closed spec fn spec_table(self) -> Option<Seq<char>> {
        match self.table {
            Some(t) => Some(t@),
            None => None,
        }
    }

    /// The optional column name.
    pub closed spec fn spec_column(self) -> Option<Seq<char>> {
        match self.column {
            Some(c) => Some(c@),
            None => None,
        }
    }

    /// The optional constraint name.
    pub closed spec fn spec_constraint(self) -> Option<Seq<char>> {
        match self.constraint {
            Some(c) => Some(c@),
            None => None,
        }
    }

    /// A report is well formed when its status code is a well-formed
    /// SQLSTATE code.  The constructor establishes this and no method
    /// mutates a report, so it holds of every report ever built.
    pub open spec fn well_formed(self) -> bool {
        valid_sqlstate(self.spec_code())
    }

    /// Builds a server report from its fields.
    pub fn new(
        severity: String,
        code: String,
        message: String,
        detail: Option<String>,
        hint: Option<String>,
        position: Option<ErrorPosition>,
        schema: Option<String>,
        table: Option<String>,
        column: Option<String>,
        constraint: Option<String>,
    ) -> (r: DbError)
        requires
            valid_sqlstate(code@),
        ensures
            r.well_formed(),
            r.spec_severity() == severity@,
            r.spec_code() == code@,
            r.spec_message() == message@,
            r.spec_detail() == (match detail {
                Some(d) => Some(d@),
                None => None::<Seq<char>>,
            }),
            r.spec_hint() == (match hint {
                Some(h) => Some(h@),
                None => None::<Seq<char>>,
            }),
            r.spec_position() == position,
            r.spec_schema() == (match schema {
                Some(s) => Some(s@),
                None => None::<Seq<char>>,
            }),
            r.spec_table() == (match table {
                Some(t) => Some(t@),
                None => None::<Seq<char>>,
            }),
            r.spec_column() == (match column {
                Some(c) => Some(c@),
                None => None::<Seq<char>>,
            }),
            r.spec_constraint() == (match constraint {
                Some(c) => Some(c@),
                None => None::<Seq<char>>,
            }),
    {
        DbError { severity, code, message, detail, hint, position, schema, table, column, constraint }
    }

    /// The severity the server reported.
    pub fn severity(&self) -> (r: &str)
        ensures
            r@ == self.spec_severity(),
    {
        self.severity.as_str()
    }

    /// The five-character SQLSTATE status code.
    pub fn code(&self) -> (r: &str)
        ensures
            r@ == self.spec_code(),
    {
        self.code.as_str()
    }

    /// The human-readable message.
    pub fn message(&self) -> (r: &str)
        ensures
            r@ == self.spec_message(),
    {
        self.message.as_str()
    }

    /// The optional detail text.
    pub fn detail(&self) -> (r: Option<&String>)
        ensures
            match r {
                Some(d) => self.spec_detail() == Some(d@),
                None => self.spec_detail() is None,
            },
    {
        self.detail.as_ref()
    }

    /// The optional hint text.
    pub fn hint(&self) -> (r: Option<&String>)
        ensures
            match r {
                Some(h) => self.spec_hint() == Some(h@),
                None => self.spec_hint() is None,
            },
    {
        self.hint.as_ref()
    }

    /// The optional error position.
    pub fn position(&self) -> (r: Option<&ErrorPosition>)
        ensures
            match r {
                Some(p) => self.spec_position() == Some(*p),
                None => self.spec_position() is None,
            },
    {
        self.position.as_ref()
    }

    /// The optional schema name.
    pub fn schema(&self) -> (r: Option<&String>)
        ensures
            match r {
                Some(s) => self.spec_schema() == Some(s@),
                None => self.spec_schema() is None,
            },
    {
        self.schema.as_ref()
    }

    /// The optional table name.
    pub fn table(&self) -> (r: Option<&String>)
        ensures
            match r {
                Some(t) => self.spec_table() == Some(t@),
                None => self.spec_table() is None,
            },
    {
        self.table.as_ref()
    }

    /// The optional column name.
    pub fn column(&self) -> (r: Option<&String>)
        ensures
            match r {
                Some(c) => self.spec_column() == Some(c@),
                None => self.spec_column() is None,
            },
    {
        self.column.as_ref()
    }

    /// The human-readable category of this report's status code, read
    /// from the SQLSTATE class table.  Advisory: it serves display and
    /// logging, and never changes control flow.
    pub fn code_category(&self) -> (r: &'static str)
        ensures
            r@ == crate::sqlstate::code_category(self.spec_code()),
    {
        crate::sqlstate::sqlstate_category(self.code())
    }

    /// The optional constraint name.
    pub fn constraint(&self) -> (r: Option<&String>)
        ensures
            match r {
                Some(c) => self.spec_constraint() == Some(c@),
                None => self.spec_constraint() is None,
            },
    {
        self.constraint.as_ref()
    }
}

/// Reasons establishing a new connection failed.
#[derive(Clone, Debug, PartialEq, Eq)]
pub enum ConnectError {
    /// The provided connection URL could not be parsed; carries the
    /// offending fragment.
    InvalidUrl(String),
    /// The URL was missing a user.
    MissingUser,
    /// The server itself rejected the connection with a structured report.
    DbError(DbError),
    /// The server requested a password but none was provided.
    MissingPassword,
    /// The server requested an authentication method the client does not
    /// support.
    UnsupportedAuthentication,
    /// The server does not support SSL encryption, which the client
    /// required.
    NoSslSupport,
    /// The cryptographic handshake failed; carries the underlying TLS
    /// failure.
    SslError(TlsError),
    /// Communicating with the server failed; carries the underlying
    /// transport failure.
    IoError(TransportError),
    /// The server sent an unexpected response during the startup sequence.
    BadResponse,
}

/// The stable category description of a connection-establishment failure,
/// independent of any wrapped detail.
pub open spec fn connect_error_description(e: ConnectError) -> Seq<char> {
    match e {
        ConnectError::InvalidUrl(_) => "Invalid URL"@,
        ConnectError::MissingUser => "User missing in URL"@,
        ConnectError::DbError(_) => "An error from the Postgres server itself"@,
        ConnectError::MissingPassword => "The server requested a password but none was provided"@,
        ConnectError::UnsupportedAuthentication => "The server requested an unsupported authentication method"@,
        ConnectError::NoSslSupport => "The server does not support SSL"@,
        ConnectError::SslError(_) => "Error initiating SSL session"@,
        ConnectError::IoError(_) => "Error communicating with server"@,
        ConnectError::BadResponse => "The server returned an unexpected response"@,
    }
}

impl ConnectError {
    /// The stable category description of this failure.
    pub fn description(&self) -> (r: &'static str)
        ensures
            r@ == connect_error_description(*self),
    {
        match self {
            ConnectError::InvalidUrl(_) => "Invalid URL",
            ConnectError::MissingUser => "User missing in URL",
            ConnectError::DbError(_) => "An error from the Postgres server itself",
            ConnectError::MissingPassword => "The server requested a password but none was provided",
            ConnectError::UnsupportedAuthentication => "The server requested an unsupported authentication method",
            ConnectError::NoSslSupport => "The server does not support SSL",
            ConnectError::SslError(_) => "Error initiating SSL session",
            ConnectError::IoError(_) => "Error communicating with server",
            ConnectError::BadResponse => "The server returned an unexpected response",
        }
    }
}

/// The full display string of a connection-establishment failure: the
/// category description, and for the invalid-URL variant the offending
/// fragment appended after `": "`, verbatim.
pub open spec fn connect_error_display(e: ConnectError) -> Seq<char> {
    match e {
        ConnectError::InvalidUrl(msg) => connect_error_description(e) + ": "@ + msg@,
        _ => connect_error_description(e),
    }
}

impl ConnectError {
    /// The full display string of this failure: self-describing without
    /// inspecting the wrapped cause, with the offending URL fragment
    /// appended where one exists.
    pub fn display_string(&self) -> (r: String)
        ensures
            r@ == connect_error_display(*self),
    {
        let mut s = String::from_str(self.description());
        match self {
            ConnectError::InvalidUrl(msg) => {
                s.append(": ");
                s.append(msg.as_str());
            },
            _ => {},
        }
        s
    }
}

/// Failures once a connection is live.
#[derive(Clone, Debug, PartialEq, Eq)]
pub enum Error {
    /// The server reported an error with a structured report.
    DbError(DbError),
    /// Communicating with the server failed; carries the underlying
    /// transport failure.
    IoError(TransportError),
    /// The communication channel with the server has desynchronized due to
    /// an earlier communications error; the connection is permanently
    /// unusable.
    StreamDesynchronized,
    /// An attempt was made to convert between an application value and an
    /// incompatible wire-protocol type; carries the observed descriptor.
    WrongType(Type),
    /// An attempt was made to read from a column that does not exist.
    InvalidColumn,
    /// A value was absent (SQL NULL) where the destination type does not
    /// permit absence.
    WasNull,
    /// The server returned an unexpected response.
    BadResponse,
    /// The server provided data the client could not parse according to
    /// the expected wire format.
    BadData,
}

/// The stable category description of an established-connection failure,
/// independent of any wrapped detail.
pub open spec fn error_description(e: Error) -> Seq<char> {
    match e {
        Error::DbError(_) => "An error reported by the Postgres server"@,
        Error::IoError(_) => "An error communicating with the Postgres server"@,
        Error::StreamDesynchronized => "Communication with the server has desynchronized due to an earlier IO error"@,
        Error::WrongType(_) => "Unexpected type"@,
        Error::InvalidColumn => "Invalid column"@,
        Error::WasNull => "The value was NULL"@,
        Error::BadResponse => "The server returned an unexpected response"@,
        Error::BadData => "The server provided data that the client could not parse"@,
    }
}

impl Error {
    /// The stable category description of this failure.
    pub fn description(&self) -> (r: &'static str)
        ensures
            r@ == error_description(*self),
    {
        match self {
            Error::DbError(_) => "An error reported by the Postgres server",
            Error::IoError(_) => "An error communicating with the Postgres server",
            Error::StreamDesynchronized => "Communication with the server has desynchronized due to an earlier IO error",
            Error::WrongType(_) => "Unexpected type",
            Error::InvalidColumn => "Invalid column",
            Error::WasNull => "The value was NULL",
            Error::BadResponse => "The server returned an unexpected response",
            Error::BadData => "The server provided data that the client could not parse",
        }
    }
}

/// The full display string of an established-connection failure: the
/// category description, and for the wrong-type variant the observed type
/// descriptor's name appended.
pub open spec fn error_display(e: Error) -> Seq<char> {
    match e {
        Error::WrongType(ty) => error_description(e) + ": saw type "@ + ty.spec_name(),
        _ => error_description(e),
    }
}

impl Error {
    /// The full display string of this failure: self-describing without
    /// inspecting the wrapped cause, with the observed type appended where
    /// one exists.
    pub fn display_string(&self) -> (r: String)
        ensures
            r@ == error_display(*self),
    {
        let mut s = String::from_str(self.description());
        match self {
            Error::WrongType(ty) => {
                s.append(": saw type ");
                s.append(ty.name());
            },
            _ => {},
        }
        s
    }
}

/// A wrapped underlying failure, exposed for chained diagnostics: the
/// server report, transport fault or cryptographic fault an error variant
/// carries, surfaced unchanged in content.
#[derive(Debug)]
pub enum Cause<'a> {
    /// A structured report from the server.
    Db(&'a DbError),
    /// A transport-level failure.
    Transport(&'a TransportError),
    /// A cryptographic-layer failure.
    Tls(&'a TlsError),
}

/// The cause a connection-establishment failure wraps, if any.
pub open spec fn connect_error_cause<'a>(e: &'a ConnectError) -> Option<Cause<'a>> {
    match e {
        ConnectError::DbError(d) => Some(Cause::Db(d)),
        ConnectError::SslError(t) => Some(Cause::Tls(t)),
        ConnectError::IoError(t) => Some(Cause::Transport(t)),
        _ => None,
    }
}

impl ConnectError {
    /// The wrapped underlying failure, if any, for chained diagnostics.
    pub fn cause<'a>(&'a self) -> (r: Option<Cause<'a>>)
        ensures
            r == connect_error_cause(self),
    {
        match self {
            ConnectError::DbError(d) => Some(Cause::Db(d)),
            ConnectError::SslError(t) => Some(Cause::Tls(t)),
            ConnectError::IoError(t) => Some(Cause::Transport(t)),
            _ => None,
        }
    }
}

/// The cause an established-connection failure wraps, if any.
pub open spec fn error_cause<'a>(e: &'a Error) -> Option<Cause<'a>> {
    match e {
        Error::DbError(d) => Some(Cause::Db(d)),
        Error::IoError(t) => Some(Cause::Transport(t)),
        _ => None,
    }
}

impl Error {
    /// The wrapped underlying failure, if any, for chained diagnostics.
    pub fn cause<'a>(&'a self) -> (r: Option<Cause<'a>>)
        ensures
            r == error_cause(self),
    {
        match self {
            Error::DbError(d) => Some(Cause::Db(d)),
            Error::IoError(t) => Some(Cause::Transport(t)),
            _ => None,
        }
    }
}

impl From<TransportError> for ConnectError {
    /// A forwarded transport failure becomes the transport variant,
    /// content unchanged.
    fn from(err: TransportError) -> ConnectError {
        ConnectError::IoError(err)
    }
}

impl vstd::std_specs::convert::FromSpecImpl<TransportError> for ConnectError {
    open spec fn obeys_from_spec() -> bool {
        true
    }

    open spec fn from_spec(v: TransportError) -> ConnectError {
        ConnectError::IoError(v)
    }
}

impl From<DbError> for ConnectError {
    /// A forwarded server report becomes the server-report variant,
    /// content unchanged.
    fn from(err: DbError) -> ConnectError {
        ConnectError::DbError(err)
    }
}

impl vstd::std_specs::convert::FromSpecImpl<DbError> for ConnectError {
    open spec fn obeys_from_spec() -> bool {
        true
    }

    open spec fn from_spec(v: DbError) -> ConnectError {
        ConnectError::DbError(v)
    }
}

impl From<TlsError> for ConnectError {
    /// A forwarded cryptographic failure becomes the handshake-failure
    /// variant, content unchanged.
    fn from(err: TlsError) -> ConnectError {
        ConnectError::SslError(err)
    }
}

impl vstd::std_specs::convert::FromSpecImpl<TlsError> for ConnectError {
    open spec fn obeys_from_spec() -> bool {
        true
    }

    open spec fn from_spec(v: TlsError) -> ConnectError {
        ConnectError::SslError(v)
    }
}

impl From<DbError> for Error {
    /// A forwarded server report becomes the server-report variant,
    /// content unchanged.
    fn from(err: DbError) -> Error {
        Error::DbError(err)
    }
}

impl vstd::std_specs::convert::FromSpecImpl<DbError> for Error {
    open spec fn obeys_from_spec() -> bool {
        true
    }

    open spec fn from_spec(v: DbError) -> Error {
        Error::DbError(v)
    }
}

impl From<TransportError> for Error {
    /// A forwarded transport failure becomes the transport variant,
    /// content unchanged.
    fn from(err: TransportError) -> Error {
        Error::IoError(err)
    }
}

impl vstd::std_specs::convert::FromSpecImpl<TransportError> for Error {
    open spec fn obeys_from_spec() -> bool {
        true
    }

    open spec fn from_spec(v: TransportError) -> Error {
        Error::IoError(v)
    }
}

/// The category description of every connection-establishment failure is
/// a non-empty string, and it depends on the variant alone, so it is
/// stable across runs for the same input.
pub proof fn lemma_connect_error_description_nonempty(e: ConnectError)
    ensures
        connect_error_description(e).len() > 0,
{
    reveal_strlit("Invalid URL");
    reveal_strlit("User missing in URL");
    reveal_strlit("An error from the Postgres server itself");
    reveal_strlit("The server requested a password but none was provided");
    reveal_strlit("The server requested an unsupported authentication method");
    reveal_strlit("The server does not support SSL");
    reveal_strlit("Error initiating SSL session");
    reveal_strlit("Error communicating with server");
    reveal_strlit("The server returned an unexpected response");
}

/// The category description of every established-connection failure is a
/// non-empty string, and it depends on the variant alone, so it is stable
/// across runs for the same input.
pub proof fn lemma_error_description_nonempty(e: Error)
    ensures
        error_description(e).len() > 0,
{
    reveal_strlit("An error reported by the Postgres server");
    reveal_strlit("An error communicating with the Postgres server");
    reveal_strlit("Communication with the server has desynchronized due to an earlier IO error");
    reveal_strlit("Unexpected type");
    reveal_strlit("Invalid column");
    reveal_strlit("The value was NULL");
    reveal_strlit("The server returned an unexpected response");
    reveal_strlit("The server provided data that the client could not parse");
}

/// The display string of the invalid-URL variant is exactly the category
/// description, then `": "`, then the offending fragment, verbatim.
pub proof fn lemma_invalid_url_display_shape(msg: String)
    ensures
        connect_error_display(ConnectError::InvalidUrl(msg)) == connect_error_description(
            ConnectError::InvalidUrl(msg),
        ) + ": "@ + msg@,
{
}

/// Wrapping a transport, cryptographic or server failure into a
/// connection-establishment error and retrieving the cause yields the
/// original failure, content unchanged.
pub proof fn lemma_connect_error_cause_round_trip(t: TransportError, s: TlsError, d: DbError)
    ensures
        connect_error_cause(&ConnectError::IoError(t)) == Some(Cause::Transport(&t)),
        connect_error_cause(&ConnectError::SslError(s)) == Some(Cause::Tls(&s)),
        connect_error_cause(&ConnectError::DbError(d)) == Some(Cause::Db(&d)),
{
}

/// Wrapping a transport or server failure into an established-connection
/// error and retrieving the cause yields the original failure, content
/// unchanged.
pub proof fn lemma_error_cause_round_trip(t: TransportError, d: DbError)
    ensures
        error_cause(&Error::IoError(t)) == Some(Cause::Transport(&t)),
        error_cause(&Error::DbError(d)) == Some(Cause::Db(&d)),
{
}

/// The automatic conversions from lower-level failures are total and
/// lossless: each failure maps to exactly the variant that wraps it,
/// content unchanged, so forwarding call sites need no wrapping code.
pub proof fn lemma_connect_error_from_is_lossless(t: TransportError, s: TlsError, d: DbError)
    ensures
        <ConnectError as vstd::std_specs::convert::FromSpec<TransportError>>::from_spec(t)
            == ConnectError::IoError(t),
        <ConnectError as vstd::std_specs::convert::FromSpec<TlsError>>::from_spec(s)
            == ConnectError::SslError(s),
        <ConnectError as vstd::std_specs::convert::FromSpec<DbError>>::from_spec(d)
            == ConnectError::DbError(d),
{
}

/// The automatic conversions from lower-level failures are total and
/// lossless: each failure maps to exactly the variant that wraps it,
/// content unchanged, so forwarding call sites need no wrapping code.
pub proof fn lemma_error_from_is_lossless(t: TransportError, d: DbError)
    ensures
        <Error as vstd::std_specs::convert::FromSpec<TransportError>>::from_spec(t)
            == Error::IoError(t),
        <Error as vstd::std_specs::convert::FromSpec<DbError>>::from_spec(d) == Error::DbError(d),
{
}

} // verus!
