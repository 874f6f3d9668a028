//! Creation and modification times of an entity, as milliseconds since the
//! Unix epoch.
use vstd::prelude::*;

verus! {

#[derive(Debug, Clone, Copy, PartialEq, Eq, Structural)]
pub struct Timestamps {
    pub created_at: i64,
    /// `None` until the first change of a field.
    pub updated_at: Option<i64>,
}

/// Relies on chrono::Utc::now and DateTime::timestamp_millis: the current
/// time, which nothing here can predict.
#[verifier::external_body]
fn now_millis() -> i64 {
    chrono::Utc::now().timestamp_millis()
}

impl Timestamps {
    pub fn new() -> (r: Timestamps)
        ensures
            r.updated_at is None,
    {
        Timestamps { created_at: now_millis(), updated_at: None }
    }

    pub fn update(&mut self)
        ensures
            final(self).created_at == old(self).created_at,
            final(self).updated_at is Some,
    {
        self.updated_at = Some(now_millis());
    }
}

} // verus!
