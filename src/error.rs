//! The uniform failure payload of every operation.
use vstd::prelude::*;

verus! {

/// The fields of an error that the database server reported.
pub struct DbErrorParts {
    pub message: String,
    pub code: String,
    pub detail: Option<String>,
    pub hint: Option<String>,
    pub position: Option<String>,
}

/// A failure as handed to callers: a message, and the server's code, detail,
/// hint and position where the server supplied them.
pub struct PgError {
    message: String,
    code: Option<String>,
    detail: Option<String>,
    hint: Option<String>,
    position: Option<String>,
}

impl PgError {
    /// The message of the error.
    pub closed spec fn message_view(&self) -> Seq<char> {
        self.message@
    }

    /// Whether the error carries none of the server's structured fields.
    pub closed spec fn is_plain(&self) -> bool {
        self.code is None && self.detail is None && self.hint is None && self.position is None
    }

    /// The server's fields, when the error carries them.
    pub closed spec fn server_fields(&self) -> (
        Option<Seq<char>>,
        Option<Seq<char>>,
        Option<Seq<char>>,
        Option<Seq<char>>,
    ) {
        (opt_view(self.code), opt_view(self.detail), opt_view(self.hint), opt_view(self.position))
    }

    /// An error that carries only a message.
    pub fn from_message(message: String) -> (r: PgError)
        ensures
            r.message_view() == message@,
            r.is_plain(),
    {
        PgError { message, code: None, detail: None, hint: None, position: None }
    }

    /// An error raised by the database driver. Where the server reported the
    /// error, its message and fields are kept; otherwise the driver's own
    /// description is the message.
    pub fn from_driver(description: String, db: Option<DbErrorParts>) -> (r: PgError)
        ensures
            match db {
                Some(d) => {
                    &&& r.message_view() == d.message@
                    &&& r.server_fields() == (
                        Some(d.code@),
                        opt_view(d.detail),
                        opt_view(d.hint),
                        opt_view(d.position),
                    )
                },
                None => r.message_view() == description@ && r.is_plain(),
            },
    {
        match db {
            Some(d) => PgError {
                message: d.message,
                code: Some(d.code),
                detail: d.detail,
                hint: d.hint,
                position: d.position,
            },
            None => PgError::from_message(description),
        }
    }

    /// An error with every field given.
    pub fn with_fields(
        message: String,
        code: Option<String>,
        detail: Option<String>,
        hint: Option<String>,
        position: Option<String>,
    ) -> (r: PgError)
        ensures
            r.message_view() == message@,
            r.server_fields() == (opt_view(code), opt_view(detail), opt_view(hint), opt_view(
                position,
            )),
    {
        PgError { message, code, detail, hint, position }
    }

    /// A failure to decode a row's structured value.
    pub fn json(reason: &str) -> (r: PgError)
        ensures
            r.message_view() == "JSON error: "@ + reason@,
            r.is_plain(),
    {
        let mut message = String::from_str("JSON error: ");
        message.append(reason);
        PgError::from_message(message)
    }

    /// A failure of the worker that ran the operation.
    pub fn task(reason: &str) -> (r: PgError)
        ensures
            r.message_view() == "Task execution failed: "@ + reason@,
            r.is_plain(),
    {
        let mut message = String::from_str("Task execution failed: ");
        message.append(reason);
        PgError::from_message(message)
    }

    /// A failure to set up transport encryption.
    pub fn tls(reason: &str) -> (r: PgError)
        ensures
            r.message_view() == "TLS error: "@ + reason@,
            r.is_plain(),
    {
        let mut message = String::from_str("TLS error: ");
        message.append(reason);
        PgError::from_message(message)
    }

    /// The message.
    pub fn message(&self) -> (r: &String)
        ensures
            r@ == self.message_view(),
    {
        &self.message
    }

    /// The server's SQLSTATE code, when the server reported the error.
    pub fn code(&self) -> (r: &Option<String>)
        ensures
            opt_view(*r) == self.server_fields().0,
    {
        &self.code
    }

    /// The server's detail text, when it gave one.
    pub fn detail(&self) -> (r: &Option<String>)
        ensures
            opt_view(*r) == self.server_fields().1,
    {
        &self.detail
    }

    /// The server's hint, when it gave one.
    pub fn hint(&self) -> (r: &Option<String>)
        ensures
            opt_view(*r) == self.server_fields().2,
    {
        &self.hint
    }

    /// Where in the query the server located the error, when it did.
    pub fn position(&self) -> (r: &Option<String>)
        ensures
            opt_view(*r) == self.server_fields().3,
    {
        &self.position
    }
}

impl From<String> for PgError {
    fn from(message: String) -> (r: PgError) {
        PgError { message, code: None, detail: None, hint: None, position: None }
    }
}

impl vstd::std_specs::convert::FromSpecImpl<String> for PgError {
    open spec fn obeys_from_spec() -> bool {
        true
    }

    closed spec fn from_spec(v: String) -> PgError {
        PgError { message: v, code: None, detail: None, hint: None, position: None }
    }
}

/// The view of an optional text.
pub open spec fn opt_view(o: Option<String>) -> Option<Seq<char>> {
    match o {
        Some(s) => Some(s@),
        None => None,
    }
}

} // verus!
