//! The error taxonomy shared by the storage interface, the validator and the
//! decision engine.
use vstd::prelude::*;

verus! {

/// The kind of entity that a failed check refers to.
#[derive(Debug, Clone, Copy, PartialEq, Eq, Structural)]
pub enum Kind {
    Namespace,
    Product,
    Tenant,
    Role,
    User,
    OrganizationProfile,
}

/// Why a payload was rejected.
#[derive(Debug, Clone, PartialEq, Eq)]
pub enum Cause {
    /// A referenced entity of the given kind and id does not exist.
    Missing(Kind, String),
    /// An entity of the given kind and id already exists.
    Duplicate(Kind, String),
    /// The entity of the given kind and id is still referenced.
    InUse(Kind, String),
    /// The payload's shape breaks an input rule.
    Input(String),
}

#[derive(Debug, Clone, PartialEq, Eq)]
pub enum Error {
    NotFound,
    AlreadyExists,
    ValidationError(Cause),
    Unauthorized,
    StorageFailure(String),
    NotModified,
}

/// A rejection as the contracts speak of it: the kind and the id at fault.
pub enum Failure {
    Missing(Kind, Seq<char>),
    Duplicate(Kind, Seq<char>),
    InUse(Kind, Seq<char>),
}

impl Cause {
    pub open spec fn is(self, f: Failure) -> bool {
        match (self, f) {
            (Cause::Missing(k, id), Failure::Missing(fk, fid)) => k == fk && id@ == fid,
            (Cause::Duplicate(k, id), Failure::Duplicate(fk, fid)) => k == fk && id@ == fid,
            (Cause::InUse(k, id), Failure::InUse(fk, fid)) => k == fk && id@ == fid,
            _ => false,
        }
    }
}

/// `r` is what a check that may also meet a storage failure returns when the
/// first failing rule is `expected` (`None`: every rule holds).
pub open spec fn reports(r: Result<(), Error>, expected: Option<Failure>) -> bool {
    match r {
        Ok(_) => expected is None,
        Err(Error::ValidationError(c)) => expected is Some && c.is(expected->Some_0),
        Err(Error::StorageFailure(_)) => true,
        Err(_) => false,
    }
}

pub fn missing(kind: Kind, id: &String) -> (e: Error)
    ensures
        e matches Error::ValidationError(c) && c.is(Failure::Missing(kind, id@)),
{
    Error::ValidationError(Cause::Missing(kind, id.clone()))
}

pub fn duplicate(kind: Kind, id: &String) -> (e: Error)
    ensures
        e matches Error::ValidationError(c) && c.is(Failure::Duplicate(kind, id@)),
{
    Error::ValidationError(Cause::Duplicate(kind, id.clone()))
}

pub fn in_use(kind: Kind, id: &String) -> (e: Error)
    ensures
        e matches Error::ValidationError(c) && c.is(Failure::InUse(kind, id@)),
{
    Error::ValidationError(Cause::InUse(kind, id.clone()))
}

} // verus!
