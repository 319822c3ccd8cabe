//! The errors that the frontend reports to its callers.
use vstd::prelude::*;

verus! {

/// An error of the frontend: the two kinds that the engine reports.
#[derive(Debug, PartialEq, Eq)]
pub enum PgError {
    /// The request itself is malformed (for instance, empty SQL).
    InvalidArgument(String),
    /// The statement is refused, or names something that does not exist.
    ParseError(String),
}

/// What a [`PgError`] holds, as text.
pub enum PgErrorView {
    InvalidArgument(Seq<char>),
    ParseError(Seq<char>),
}

impl View for PgError {
    type V = PgErrorView;

    open spec fn view(&self) -> PgErrorView {
        match self {
            PgError::InvalidArgument(m) => PgErrorView::InvalidArgument(m@),
            PgError::ParseError(m) => PgErrorView::ParseError(m@),
        }
    }
}

/// The view of a result whose success value is a string.
pub open spec fn text_result_view(r: Result<String, PgError>) -> Result<Seq<char>, PgErrorView> {
    match r {
        Ok(s) => Ok(s@),
        Err(e) => Err(e@),
    }
}

/// The view of a result with no success value.
pub open spec fn unit_result_view(r: Result<(), PgError>) -> Result<(), PgErrorView> {
    match r {
        Ok(()) => Ok(()),
        Err(e) => Err(e@),
    }
}

impl PgError {
    /// The message that the error carries.
    pub fn message(&self) -> (m: String)
        ensures
            m@ == match self@ {
                PgErrorView::InvalidArgument(t) => t,
                PgErrorView::ParseError(t) => t,
            },
    {
        match self {
            PgError::InvalidArgument(m) => m.clone(),
            PgError::ParseError(m) => m.clone(),
        }
    }
}

} // verus!
