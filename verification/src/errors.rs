use vstd::prelude::*;

verus! {

/// Errors that the server's services report.
#[derive(Debug, Clone)]
pub enum ServerError {
    Database(String),
    Authentication(String),
    Authorization(String),
    Validation(String),
    Network(String),
    Internal(String),
    BadRequest(String),
    NotFound(String),
    Forbidden(String),
}

/// The text that the message of each kind of error starts with.
pub open spec fn error_prefix(e: ServerError) -> Seq<char> {
    match e {
        ServerError::Database(_) => "Database error: "@,
        ServerError::Authentication(_) => "Authentication error: "@,
        ServerError::Authorization(_) => "Authorization error: "@,
        ServerError::Validation(_) => "Validation error: "@,
        ServerError::Network(_) => "Network error: "@,
        ServerError::Internal(_) => "Internal error: "@,
        ServerError::BadRequest(_) => "Bad request: "@,
        ServerError::NotFound(_) => "Not found: "@,
        ServerError::Forbidden(_) => "Forbidden: "@,
    }
}

/// The detail text that an error carries.
pub open spec fn error_detail(e: ServerError) -> Seq<char> {
    match e {
        ServerError::Database(m) => m@,
        ServerError::Authentication(m) => m@,
        ServerError::Authorization(m) => m@,
        ServerError::Validation(m) => m@,
        ServerError::Network(m) => m@,
        ServerError::Internal(m) => m@,
        ServerError::BadRequest(m) => m@,
        ServerError::NotFound(m) => m@,
        ServerError::Forbidden(m) => m@,
    }
}

impl ServerError {
    /// The human-readable message of the error: its kind, then its detail.
    pub fn message(&self) -> (s: String)
        ensures
            s@ == error_prefix(*self) + error_detail(*self),
    {
        let (prefix, detail): (&str, &String) = match self {
            ServerError::Database(m) => ("Database error: ", m),
            ServerError::Authentication(m) => ("Authentication error: ", m),
            ServerError::Authorization(m) => ("Authorization error: ", m),
            ServerError::Validation(m) => ("Validation error: ", m),
            ServerError::Network(m) => ("Network error: ", m),
            ServerError::Internal(m) => ("Internal error: ", m),
            ServerError::BadRequest(m) => ("Bad request: ", m),
            ServerError::NotFound(m) => ("Not found: ", m),
            ServerError::Forbidden(m) => ("Forbidden: ", m),
        };
        let mut s = String::from_str(prefix);
        s.append(detail.as_str());
        s
    }
}

impl From<String> for ServerError {
    fn from(err: String) -> (r: ServerError) {
        ServerError::Internal(err)
    }
}

impl vstd::std_specs::convert::FromSpecImpl<String> for ServerError {
    open spec fn obeys_from_spec() -> bool {
        true
    }

    open spec fn from_spec(err: String) -> ServerError {
        ServerError::Internal(err)
    }
}

} // verus!
