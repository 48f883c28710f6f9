//! Errors of the full-text store and of ancillary lookups, with the context
//! that callers attach as an error travels up.
use vstd::prelude::*;

verus! {

/// The class of an error; it never changes as context is added.
#[derive(Clone, Copy, Debug, PartialEq, Eq, Structural)]
pub enum ErrorKind {
    /// A full-text backend could not carry out a read or a write.
    Io,
    /// A full-text backend could not be reached.
    Unavailable,
    /// A record that a fact depends on does not exist.
    NotFound,
}

/// An error: its kind, the identifiers it concerns, and the call sites it
/// passed through, innermost first.
#[derive(Clone, Debug)]
pub struct Error {
    pub kind: ErrorKind,
    pub account_id: Option<u32>,
    pub document_id: Option<u32>,
    pub context: Vec<&'static str>,
}

impl Error {
    /// An error of the given kind, with no identifiers and no context.
    pub fn new(kind: ErrorKind) -> (r: Error)
        ensures
            r.kind == kind,
            r.account_id == None::<u32>,
            r.document_id == None::<u32>,
            r.context@ == Seq::<&'static str>::empty(),
    {
        Error { kind, account_id: None, document_id: None, context: Vec::new() }
    }

    /// The same error, concerning the given account.
    pub fn account_id(self, account_id: u32) -> (r: Error)
        ensures
            r.kind == self.kind,
            r.account_id == Some(account_id),
            r.document_id == self.document_id,
            r.context@ == self.context@,
    {
        Error { account_id: Some(account_id), ..self }
    }

    /// The same error, concerning the given document.
    pub fn document_id(self, document_id: u32) -> (r: Error)
        ensures
            r.kind == self.kind,
            r.account_id == self.account_id,
            r.document_id == Some(document_id),
            r.context@ == self.context@,
    {
        Error { document_id: Some(document_id), ..self }
    }

    /// The same error, having passed through `location`.
    pub fn caused_by(self, location: &'static str) -> (r: Error)
        ensures
            r.kind == self.kind,
            r.account_id == self.account_id,
            r.document_id == self.document_id,
            r.context@ == self.context@.push(location),
    {
        let mut r = self;
        r.context.push(location);
        r
    }
}

/// A result whose error, if any, has passed through `location`; a success
/// is handed on unchanged.
pub fn caused_by<T>(r: Result<T, Error>, location: &'static str) -> (out: Result<T, Error>)
    ensures
        match r {
            Ok(v) => out == Ok::<T, Error>(v),
            Err(e) => match out {
                Err(f) => f.kind == e.kind && f.account_id == e.account_id && f.document_id == e.document_id
                    && f.context@ == e.context@.push(location),
                Ok(_) => false,
            },
        },
{
    match r {
        Ok(v) => Ok(v),
        Err(e) => Err(e.caused_by(location)),
    }
}

} // verus!
