//! The ways in which obtaining a transaction fails.

use vstd::prelude::*;

verus! {

/// Possible errors when obtaining a transaction for a request.
///
/// `E` is the error of the database: the cause of [`Error::Database`].
///
/// The first two variants are mistakes in how an application is put
/// together, and never go away by trying again.
#[derive(Debug)]
pub enum Error<E> {
    /// Indicates that no transaction was bound to the request: the
    /// middleware was not installed.
    MissingExtension,
    /// Indicates that the transaction was asked for while another handle on
    /// it was still around, or after it was resolved.
    OverlappingExtractors,
    /// A database error occurred when starting or committing the
    /// transaction.
    Database { error: E },
}

/// What [`Error::message`] says of [`Error::MissingExtension`].
pub open spec fn missing_extension_text() -> Seq<char> {
    "required extension not registered; did you add the axum_sqlx_tx::Layer middleware?"@
}

/// What [`Error::message`] says of [`Error::OverlappingExtractors`].
pub open spec fn overlapping_extractors_text() -> Seq<char> {
    "axum_sqlx_tx::Tx extractor used multiple times in the same handler/middleware"@
}

impl<E> Error<E> {
    /// The HTTP status that any of these errors is answered with by default:
    /// 500, internal server error.
    pub open spec fn spec_status(&self) -> u16 {
        500
    }

    #[verifier::when_used_as_spec(spec_status)]
    pub fn status(&self) -> (status: u16)
        ensures
            status == self.spec_status(),
    {
        500
    }

    /// The error in words. A database error speaks for itself: for it the
    /// result is `None`, and the text is that of the cause.
    pub fn message(&self) -> (text: Option<String>)
        ensures
            self is MissingExtension ==> text is Some && text->0@ == missing_extension_text(),
            self is OverlappingExtractors ==> text is Some && text->0@
                == overlapping_extractors_text(),
            self is Database ==> text is None,
    {
        match self {
            Error::MissingExtension => Some(
                "required extension not registered; did you add the axum_sqlx_tx::Layer middleware?".to_owned(),
            ),
            Error::OverlappingExtractors => Some(
                "axum_sqlx_tx::Tx extractor used multiple times in the same handler/middleware".to_owned(),
            ),
            Error::Database { .. } => None,
        }
    }

    /// The cause of a database error.
    pub fn into_database(self) -> (cause: Option<E>)
        ensures
            cause == (match self {
                Error::Database { error } => Some(error),
                _ => None,
            }),
    {
        match self {
            Error::Database { error } => Some(error),
            _ => None,
        }
    }
}

} // verus!
