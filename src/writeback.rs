//! The expiry written back to a record after it was acted on, so that push
//! observers can tell the echo of that write from a new record.
use vstd::prelude::*;
use crate::engine::{SharedRecord, Timestamp};

verus! {

/// How long after its creation a record counts as expired: three days.
pub const EXPIRY_SECONDS: i64 = 259200;

/// The update to store for a record: its fields, with the expiry added.
#[derive(Clone, Debug)]
pub struct ExpiryUpdate {
    pub id: String,
    pub url: String,
    pub created_at: Timestamp,
    pub expires_at: Timestamp,
}

/// The expiry of a record created at `t`, where it can be represented.
pub open spec fn expiry_of(t: Timestamp) -> Option<Timestamp> {
    if t.seconds + EXPIRY_SECONDS <= i64::MAX {
        Some(Timestamp { seconds: (t.seconds + EXPIRY_SECONDS) as i64, nanos: t.nanos })
    } else {
        None
    }
}

/// The expiry of a record created at `created_at`; `None` past the end of the
/// representable range.
pub fn expiry_for(created_at: Timestamp) -> (r: Option<Timestamp>)
    ensures
        r == expiry_of(created_at),
{
    if created_at.seconds <= i64::MAX - EXPIRY_SECONDS {
        Some(Timestamp { seconds: created_at.seconds + EXPIRY_SECONDS, nanos: created_at.nanos })
    } else {
        None
    }
}

/// The update that marks `record` as processed. Only a record with an id can
/// be updated, so one without gives `None`, as does one whose expiry cannot
/// be represented.
pub fn write_back_for(record: &SharedRecord) -> (r: Option<ExpiryUpdate>)
    ensures
        r.is_some() <==> (record.id.is_some() && expiry_of(record.created_at).is_some()),
        r.is_some() ==> ({
            let u = r.unwrap();
            &&& u.id@ == record.id.unwrap()@
            &&& u.url@ == record.url@
            &&& u.created_at == record.created_at
            &&& Some(u.expires_at) == expiry_of(record.created_at)
        }),
{
    let id = match &record.id {
        Some(id) => id.clone(),
        None => return None,
    };
    match expiry_for(record.created_at) {
        Some(expires_at) => Some(
            ExpiryUpdate { id, url: record.url.clone(), created_at: record.created_at, expires_at },
        ),
        None => None,
    }
}

} // verus!
