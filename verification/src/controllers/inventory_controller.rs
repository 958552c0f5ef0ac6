//! Creation of a record and the reads of the inventory.

use crate::models::data::{InventoryPayload, ProductValues, Products};
use crate::reply::{Content, Notice, Reply, Status};
use crate::store::StoreFailure;
use vstd::prelude::*;

verus! {

/// A request to create a record. The payload is `None` where the body of the
/// request could not be read. The SKU is kept beside the payload: the bound
/// rules do not look at it.
#[derive(Debug, Clone, PartialEq, Eq)]
pub struct ProductCreation {
    pub payload: Option<InventoryPayload>,
    pub sku: Option<String>,
}

/// What happened last while a creation was handled.
#[derive(Debug, Clone, PartialEq, Eq)]
pub enum CreateEvent {
    /// The request arrived.
    Received,
    /// The store created the record and gave its identity back.
    Inserted { id: i32, name: String, sku: Option<String> },
    /// The store created nothing, and said why.
    InsertFailed(StoreFailure),
}

/// What a creation does next.
#[derive(Debug, Clone, PartialEq, Eq)]
pub enum CreateAction {
    /// Create a record with these values and this SKU.
    Insert { values: ProductValues, sku: Option<String> },
    /// Give this reply; the request is done.
    Respond(Reply),
}

/// The reply to an insert that failed: the store is unavailable where it
/// could not be reached, a broken uniqueness rule is a conflict, and anything
/// else is an internal error.
pub open spec fn insert_failure_reply(failure: StoreFailure) -> Reply {
    if failure.spec_unreachable() {
        Reply::spec_unavailable()
    } else if failure.spec_unique_violation() {
        Reply::notice_only(Status::Conflict, Notice::ExistingSku)
    } else {
        Reply::notice_only(Status::InternalServerError, Notice::SaveFailed)
    }
}

/// The next step of a creation. Nothing is created unless the payload is
/// valid, and a failed insert is answered, never tried again.
pub open spec fn create_plan(request: ProductCreation, event: CreateEvent) -> CreateAction {
    match event {
        CreateEvent::Received => match request.payload {
            None => CreateAction::Respond(
                Reply::notice_only(Status::BadRequest, Notice::MissingData),
            ),
            Some(payload) => match payload.spec_values() {
                Err(e) => CreateAction::Respond(
                    Reply::notice_only(Status::BadRequest, Notice::Validation(e)),
                ),
                Ok(values) => CreateAction::Insert { values, sku: request.sku },
            },
        },
        CreateEvent::Inserted { id, name, sku } => CreateAction::Respond(
            Reply {
                status: Status::Created,
                notice: Some(Notice::ProductCreated),
                content: Content::Created { id, name, sku },
            },
        ),
        CreateEvent::InsertFailed(failure) => CreateAction::Respond(insert_failure_reply(failure)),
    }
}

/// Decides the next step of a creation from the request and what happened
/// last.
pub fn add_new_product(request: &ProductCreation, event: CreateEvent) -> (action: CreateAction)
    ensures
        action == create_plan(*request, event),
{
    match event {
        CreateEvent::Received => match &request.payload {
            None => CreateAction::Respond(
                Reply::with_notice(Status::BadRequest, Notice::MissingData),
            ),
            Some(payload) => match payload.values() {
                Err(e) => CreateAction::Respond(
                    Reply::with_notice(Status::BadRequest, Notice::Validation(e)),
                ),
                Ok(values) => CreateAction::Insert { values, sku: request.sku.clone() },
            },
        },
        CreateEvent::Inserted { id, name, sku } => CreateAction::Respond(
            Reply {
                status: Status::Created,
                notice: Some(Notice::ProductCreated),
                content: Content::Created { id, name, sku },
            },
        ),
        CreateEvent::InsertFailed(failure) => {
            if failure.unreachable() {
                CreateAction::Respond(Reply::unavailable())
            } else if failure.unique_violation() {
                CreateAction::Respond(Reply::with_notice(Status::Conflict, Notice::ExistingSku))
            } else {
                CreateAction::Respond(
                    Reply::with_notice(Status::InternalServerError, Notice::SaveFailed),
                )
            }
        },
    }
}

/// A creation inserts only values that keep the bound invariant, and only when
/// the request arrives.
pub proof fn lemma_create_inserts_bounded(request: ProductCreation, event: CreateEvent)
    requires
        create_plan(request, event) is Insert,
    ensures
        event == CreateEvent::Received,
        crate::models::data::within_bounds(
            create_plan(request, event)->values.stock as int,
            create_plan(request, event)->values.maximun as int,
            create_plan(request, event)->values.minimun as int,
        ),
{
}

/// A creation that finds the store out of reach reports it unavailable,
/// whatever the request holds.
pub proof fn lemma_create_reports_unreachable_store(
    request: ProductCreation,
    failure: StoreFailure,
)
    requires
        failure.spec_unreachable(),
    ensures
        create_plan(request, CreateEvent::InsertFailed(failure)) == CreateAction::Respond(
            Reply::spec_unavailable(),
        ),
{
}

/// The reply to a fetch by identifier that found nothing to show.
pub open spec fn not_obtained() -> Reply {
    Reply::notice_only(Status::NotFound, Notice::ObtainFailed)
}

/// The reply to a fetch by identifier. An active record is shown. A record
/// that is switched off is answered as a record that is not there: the two
/// replies are the same. A store that could not be reached is reported
/// unavailable, and any other failure counts as a record that is not there.
pub open spec fn fetch_reply(fetched: Result<Products, StoreFailure>) -> Reply {
    match fetched {
        Ok(record) => if record.status {
            Reply { status: Status::Success, notice: None, content: Content::Product(record) }
        } else {
            not_obtained()
        },
        Err(failure) => if failure.spec_unreachable() {
            Reply::spec_unavailable()
        } else {
            not_obtained()
        },
    }
}

/// Decides the reply to a fetch by identifier from what the store gave.
pub fn get_product_by_id(fetched: Result<Products, StoreFailure>) -> (reply: Reply)
    ensures
        reply == fetch_reply(fetched),
        forall|record: Products| !record.status ==> !reply.shows(record),
        fetched matches Ok(record) && !record.status ==> reply == fetch_reply(
            Err(StoreFailure::RowNotFound),
        ),
{
    match fetched {
        Ok(record) => {
            if record.status {
                Reply { status: Status::Success, notice: None, content: Content::Product(record) }
            } else {
                Reply::with_notice(Status::NotFound, Notice::ObtainFailed)
            }
        },
        Err(failure) => {
            if failure.unreachable() {
                Reply::unavailable()
            } else {
                Reply::with_notice(Status::NotFound, Notice::ObtainFailed)
            }
        },
    }
}

/// The reply to a fetch by SKU that found nothing to show: it names the SKU
/// that was asked for.
pub open spec fn sku_not_found(sku: String) -> Reply {
    Reply { status: Status::NotFound, notice: Some(Notice::SkuNotFound), content: Content::Sku(sku) }
}

/// The reply to a fetch by SKU. An active record is shown. A record that is
/// switched off is answered as a record that is not there: the two replies
/// are the same. A store that could not be reached is reported unavailable,
/// and any other failure counts as a record that is not there.
pub open spec fn sku_reply(sku: String, fetched: Result<Products, StoreFailure>) -> Reply {
    match fetched {
        Ok(record) => if record.status {
            Reply { status: Status::Success, notice: None, content: Content::Product(record) }
        } else {
            sku_not_found(sku)
        },
        Err(failure) => if failure.spec_unreachable() {
            Reply::spec_unavailable()
        } else {
            sku_not_found(sku)
        },
    }
}

/// Decides the reply to a fetch by SKU from what the store gave.
pub fn get_product_by_sku(sku: String, fetched: Result<Products, StoreFailure>) -> (reply: Reply)
    ensures
        reply == sku_reply(sku, fetched),
        forall|record: Products| !record.status ==> !reply.shows(record),
        fetched matches Ok(record) && !record.status ==> reply == sku_reply(
            sku,
            Err(StoreFailure::RowNotFound),
        ),
{
    match fetched {
        Ok(record) => {
            if record.status {
                Reply { status: Status::Success, notice: None, content: Content::Product(record) }
            } else {
                Reply {
                    status: Status::NotFound,
                    notice: Some(Notice::SkuNotFound),
                    content: Content::Sku(sku),
                }
            }
        },
        Err(failure) => {
            if failure.unreachable() {
                Reply::unavailable()
            } else {
                Reply {
                    status: Status::NotFound,
                    notice: Some(Notice::SkuNotFound),
                    content: Content::Sku(sku),
                }
            }
        },
    }
}

/// A record that is switched off cannot be told from a record that is not
/// there: a fetch by identifier and a fetch by SKU answer both alike.
pub proof fn lemma_inactive_reads_as_absent(record: Products, sku: String)
    requires
        !record.status,
    ensures
        fetch_reply(Ok(record)) == fetch_reply(Err(StoreFailure::RowNotFound)),
        fetch_reply(Ok(record)) == not_obtained(),
        sku_reply(sku, Ok(record)) == sku_reply(sku, Err(StoreFailure::RowNotFound)),
        sku_reply(sku, Ok(record)) == sku_not_found(sku),
{
}

/// A read that finds the store out of reach reports it unavailable.
pub proof fn lemma_reads_report_unreachable_store(failure: StoreFailure, sku: String)
    requires
        failure.spec_unreachable(),
    ensures
        fetch_reply(Err(failure)) == Reply::spec_unavailable(),
        sku_reply(sku, Err(failure)) == Reply::spec_unavailable(),
        forall|reply: Reply| answers_listing(reply, Err(failure)) ==> reply
            == Reply::spec_unavailable(),
{
}

/// The records of a listing that are active, in the order of the listing.
pub open spec fn active_records(records: Seq<Products>) -> Seq<Products> {
    records.filter(|record: Products| record.status)
}

/// Keeps the active records of a listing, in their order.
pub fn keep_active(records: Vec<Products>) -> (kept: Vec<Products>)
    ensures
        kept@ == active_records(records@),
{
    broadcast use vstd::std_specs::vec::axiom_spec_into_iter;

    let mut kept: Vec<Products> = Vec::new();
    let ghost all: Seq<Products> = records@;
    proof {
        reveal(Seq::filter);
        assert(all.take(0) =~= Seq::<Products>::empty());
    }
    for record in iter: records
        invariant
            iter.seq() == all,
            kept@ == active_records(all.take(iter.index())),
    {
        proof {
            let seen = all.take(iter.index());
            assert(all.take(iter.index() + 1) =~= seen.push(record));
            seen.lemma_filter_push(record, |record: Products| record.status);
        }
        if record.status {
            kept.push(record);
        }
    }
    proof {
        assert(all.take(all.len() as int) =~= all);
    }
    kept
}

/// Whether `reply` answers a listing. Records that are switched off are left
/// out, whatever the store gave; the others are shown in the order of the
/// listing. A store that could not be reached is reported unavailable, and
/// any other failure is an internal error.
pub open spec fn answers_listing(reply: Reply, listed: Result<Vec<Products>, StoreFailure>) -> bool {
    match listed {
        Ok(records) => {
            &&& reply.status == Status::Success
            &&& reply.notice.is_none()
            &&& reply.content matches Content::Products(shown)
            &&& shown@ == active_records(records@)
        },
        Err(failure) => if failure.spec_unreachable() {
            reply == Reply::spec_unavailable()
        } else {
            reply == Reply::notice_only(Status::InternalServerError, Notice::ListFailed)
        },
    }
}

/// Decides the reply to a listing from what the store gave.
pub fn get_all_products(listed: Result<Vec<Products>, StoreFailure>) -> (reply: Reply)
    ensures
        answers_listing(reply, listed),
        forall|record: Products| !record.status ==> !reply.shows(record),
{
    match listed {
        Ok(records) => {
            let shown: Vec<Products> = keep_active(records);
            proof {
                lemma_active_records_are_active(records@);
            }
            Reply { status: Status::Success, notice: None, content: Content::Products(shown) }
        },
        Err(failure) => {
            if failure.unreachable() {
                Reply::unavailable()
            } else {
                Reply::with_notice(Status::InternalServerError, Notice::ListFailed)
            }
        },
    }
}

/// Every record among the active records of a listing is active and comes
/// from the listing; every active record of the listing is among them.
pub proof fn lemma_active_records_are_active(records: Seq<Products>)
    ensures
        forall|record: Products|
            active_records(records).contains(record) <==> (records.contains(record)
                && record.status),
{
    let keep = |record: Products| record.status;
    assert forall|record: Products|
        active_records(records).contains(record) <==> (records.contains(record)
            && record.status) by {
        if active_records(records).contains(record) {
            let i = choose|i: int|
                0 <= i < active_records(records).len() && active_records(records)[i] == record;
            records.lemma_filter_pred(keep, i);
            records.lemma_filter_contains_rev(keep, record);
        }
        if records.contains(record) && record.status {
            let j = choose|j: int| 0 <= j < records.len() && records[j] == record;
            records.lemma_filter_contains(keep, j);
        }
    }
}

} // verus!
