//! The error taxonomy: configuration errors (malformed definitions),
//! database errors (wrapping the driver's report as text), runtime errors
//! (logic-level failures), and the entity-mapping error family.

use vstd::prelude::*;

verus! {

/// A malformed or unreadable definition.
#[derive(Debug)]
pub struct ConfigurationError {
    pub msg: String,
}

/// A failure reported by the database, carried as text.
#[derive(Debug)]
pub struct DatabaseError {
    pub msg: String,
}

/// A logic-level failure: an unparsable interval, an unexpected language,
/// a missing setting.
#[derive(Debug)]
pub struct RuntimeError {
    pub msg: String,
}

impl ConfigurationError {
    pub fn from_msg(msg: String) -> (r: ConfigurationError)
        ensures
            r.msg == msg,
    {
        ConfigurationError { msg }
    }
}

impl DatabaseError {
    pub fn from_msg(msg: String) -> (r: DatabaseError)
        ensures
            r.msg == msg,
    {
        DatabaseError { msg }
    }
}

impl RuntimeError {
    pub fn from_msg(msg: String) -> (r: RuntimeError)
        ensures
            r.msg == msg,
    {
        RuntimeError { msg }
    }
}

/// Any failure the library reports.
#[derive(Debug)]
pub enum Error {
    Configuration(ConfigurationError),
    Database(DatabaseError),
    Runtime(RuntimeError),
}

/// The text of an error, by kind.
pub open spec fn spec_error_text(e: Error) -> Seq<char> {
    match e {
        Error::Configuration(c) => c.msg@,
        Error::Database(d) => d.msg@,
        Error::Runtime(r) => r.msg@,
    }
}

impl Error {
    /// The carried message.
    pub fn to_text(&self) -> (r: String)
        ensures
            r@ == spec_error_text(*self),
    {
        match self {
            Error::Configuration(c) => c.msg.clone(),
            Error::Database(d) => d.msg.clone(),
            Error::Runtime(r) => r.msg.clone(),
        }
    }
}

/// A failure while resolving entity names to identifiers.
#[derive(Debug)]
pub enum EntityMappingError {
    /// The lookup query failed; the driver's report as text.
    DatabaseError(String),
    /// The creating upsert failed; the driver's report as text.
    EntityCreationError(String),
    /// The creating upsert returned no row.
    EntityInsertError,
    /// A name stayed unresolved after creation.
    UnmappedEntityError,
}

/// A failure while bulk-loading attribute data.
#[derive(Debug)]
pub enum AttributeStorageError {
    /// The staging machinery failed; the driver's report as text.
    DatabaseError(String),
    /// A value refused to encode under its column's type: the name of the
    /// entity whose row carried it.
    EncodingError(String),
}

} // verus!
