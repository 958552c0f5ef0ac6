//! Removal of a record.

use crate::reply::{Notice, Reply, Status};
use crate::store::StoreFailure;
use vstd::prelude::*;

verus! {

/// The reply to a removal. A removal that the store carried out is confirmed.
/// A store that could not be reached is reported unavailable, and any other
/// failure is an internal error.
pub open spec fn delete_reply(removed: Result<(), StoreFailure>) -> Reply {
    match removed {
        Ok(_) => Reply::notice_only(Status::Success, Notice::ProductRemoved),
        Err(failure) => if failure.spec_unreachable() {
            Reply::spec_unavailable()
        } else {
            Reply::notice_only(Status::InternalServerError, Notice::RemoveFailed)
        },
    }
}

/// Decides the reply to a removal from what the store gave.
pub fn delete_product(removed: Result<(), StoreFailure>) -> (reply: Reply)
    ensures
        reply == delete_reply(removed),
{
    match removed {
        Ok(_) => Reply::with_notice(Status::Success, Notice::ProductRemoved),
        Err(failure) => {
            if failure.unreachable() {
                Reply::unavailable()
            } else {
                Reply::with_notice(Status::InternalServerError, Notice::RemoveFailed)
            }
        },
    }
}

/// A removal that finds the store out of reach reports it unavailable.
pub proof fn lemma_delete_reports_unreachable_store(failure: StoreFailure)
    requires
        failure.spec_unreachable(),
    ensures
        delete_reply(Err(failure)) == Reply::spec_unavailable(),
{
}

} // verus!
