//! Full updates of a record and bounded adjustments of its stock.

use crate::models::data::{InventoryPayload, ProductValues, Products, StockUpdate};
use crate::reply::{Content, Notice, Reply, Status, UpdatedProduct};
use crate::stock::{adjustment, compute_adjustment, direction_of, AdjustmentError, Direction};
use crate::store::StoreFailure;
use vstd::prelude::*;

verus! {

/// A request to replace the values of one record. The payload is `None` where
/// the body of the request could not be read.
#[derive(Debug, Clone, PartialEq, Eq)]
pub struct ProductUpdate {
    pub id: i32,
    pub payload: Option<InventoryPayload>,
}

/// What happened last while a full update was handled.
#[derive(Debug, Clone, PartialEq, Eq)]
pub enum UpdateEvent {
    /// The request arrived.
    Received,
    /// The store could not be reached.
    Unavailable,
    /// The store is reached.
    Connected,
    /// The store wrote the record and gave it back.
    Written(UpdatedProduct),
    /// The store wrote nothing, and said why.
    WriteFailed(StoreFailure),
}

/// What a full update does next.
#[derive(Debug, Clone, PartialEq, Eq)]
pub enum UpdateAction {
    /// Reach the store.
    Connect,
    /// Write these values to the record with this identifier.
    Write { id: i32, values: ProductValues },
    /// Give this reply; the request is done.
    Respond(Reply),
}

/// The reply to a full update that wrote nothing: the store is unavailable
/// where it could not be reached; any other failure counts as a record that
/// is not there.
pub open spec fn update_failure_reply(failure: StoreFailure) -> Reply {
    if failure.spec_unreachable() {
        Reply::spec_unavailable()
    } else {
        Reply::notice_only(Status::NotFound, Notice::UpdateFailed)
    }
}

/// The next step of a full update. The store is reached first; only then is
/// the payload looked at, and nothing is written unless it is valid.
pub open spec fn update_plan(request: ProductUpdate, event: UpdateEvent) -> UpdateAction {
    match event {
        UpdateEvent::Received => UpdateAction::Connect,
        UpdateEvent::Unavailable => UpdateAction::Respond(Reply::spec_unavailable()),
        UpdateEvent::Connected => match request.payload {
            None => UpdateAction::Respond(
                Reply::notice_only(Status::BadRequest, Notice::BadPayload),
            ),
            Some(payload) => match payload.spec_values() {
                Err(e) => UpdateAction::Respond(
                    Reply::notice_only(Status::BadRequest, Notice::Validation(e)),
                ),
                Ok(values) => UpdateAction::Write { id: request.id, values },
            },
        },
        UpdateEvent::Written(record) => UpdateAction::Respond(
            Reply {
                status: Status::Success,
                notice: Some(Notice::ProductUpdated),
                content: Content::Updated(record),
            },
        ),
        UpdateEvent::WriteFailed(failure) => UpdateAction::Respond(update_failure_reply(failure)),
    }
}

/// Decides the next step of a full update from the request and what happened
/// last.
pub fn update_product_by_id(request: &ProductUpdate, event: UpdateEvent) -> (action: UpdateAction)
    ensures
        action == update_plan(*request, event),
{
    match event {
        UpdateEvent::Received => UpdateAction::Connect,
        UpdateEvent::Unavailable => UpdateAction::Respond(Reply::unavailable()),
        UpdateEvent::Connected => match &request.payload {
            None => UpdateAction::Respond(
                Reply::with_notice(Status::BadRequest, Notice::BadPayload),
            ),
            Some(payload) => match payload.values() {
                Err(e) => UpdateAction::Respond(
                    Reply::with_notice(Status::BadRequest, Notice::Validation(e)),
                ),
                Ok(values) => UpdateAction::Write { id: request.id, values },
            },
        },
        UpdateEvent::Written(record) => UpdateAction::Respond(
            Reply {
                status: Status::Success,
                notice: Some(Notice::ProductUpdated),
                content: Content::Updated(record),
            },
        ),
        UpdateEvent::WriteFailed(failure) => {
            if failure.unreachable() {
                UpdateAction::Respond(Reply::unavailable())
            } else {
                UpdateAction::Respond(Reply::with_notice(Status::NotFound, Notice::UpdateFailed))
            }
        },
    }
}

/// A full update writes only values that keep the bound invariant.
pub proof fn lemma_update_writes_bounded(request: ProductUpdate, event: UpdateEvent)
    requires
        update_plan(request, event) is Write,
    ensures
        event == UpdateEvent::Connected,
        update_plan(request, event)->Write_id == request.id,
        crate::models::data::within_bounds(
            update_plan(request, event)->values.stock as int,
            update_plan(request, event)->values.maximun as int,
            update_plan(request, event)->values.minimun as int,
        ),
{
}

/// A full update that finds the store out of reach reports it unavailable,
/// whether reaching it failed or the write did.
pub proof fn lemma_update_reports_unreachable_store(request: ProductUpdate, failure: StoreFailure)
    requires
        failure.spec_unreachable(),
    ensures
        update_plan(request, UpdateEvent::Unavailable) == UpdateAction::Respond(
            Reply::spec_unavailable(),
        ),
        update_plan(request, UpdateEvent::WriteFailed(failure)) == UpdateAction::Respond(
            Reply::spec_unavailable(),
        ),
{
}

/// A request to adjust the stock of one record. The payload is `None` where
/// the body of the request could not be read.
#[derive(Debug, Clone, PartialEq, Eq)]
pub struct StockChange {
    pub id: i32,
    pub mode: String,
    pub payload: Option<StockUpdate>,
}

/// What happened last while a stock adjustment was handled.
#[derive(Debug, Clone, PartialEq, Eq)]
pub enum ChangeEvent {
    /// The request arrived.
    Received,
    /// The store could not be reached.
    Unavailable,
    /// The store gave no record, and said why.
    FetchFailed(StoreFailure),
    /// The store gave the record.
    Fetched(Products),
    /// The store wrote the stock and gave the record's identity back.
    Written { id: i32, name: String },
    /// The store wrote nothing, and said why.
    WriteFailed(StoreFailure),
}

/// What a stock adjustment does next.
#[derive(Debug, Clone, PartialEq, Eq)]
pub enum ChangeAction {
    /// Fetch the record with this identifier, and hold it against every other
    /// writer until the request is done: the stock that is written was computed
    /// from the stock that was fetched, and must not meet a newer one.
    Fetch { id: i32 },
    /// Write this stock to the record with this identifier, together with the
    /// time of the change, and release the record.
    Write { id: i32, stock: i64 },
    /// Give this reply; the request is done.
    Respond(Reply),
}

/// The reply that turns an adjustment down.
pub open spec fn refusal(e: AdjustmentError) -> Reply {
    Reply::notice_only(e.spec_status(), Notice::Adjustment(e))
}

/// The reply to an adjustment that found no record to adjust.
pub open spec fn not_fetched() -> Reply {
    Reply::notice_only(Status::NotFound, Notice::FetchFailed)
}

/// The reply to a fetch that gave no record: the store is unavailable where
/// it could not be reached; any other failure counts as a record that is not
/// there.
pub open spec fn fetch_failure_reply(failure: StoreFailure) -> Reply {
    if failure.spec_unreachable() {
        Reply::spec_unavailable()
    } else {
        not_fetched()
    }
}

/// The reply to a write that failed: the store is unavailable where it could
/// not be reached; any other failure is an internal error.
pub open spec fn write_failure_reply(failure: StoreFailure) -> Reply {
    if failure.spec_unreachable() {
        Reply::spec_unavailable()
    } else {
        Reply::notice_only(Status::InternalServerError, Notice::StockUpdateFailed)
    }
}

/// The next step of a stock adjustment. The direction is settled before the
/// store is asked for anything; a record that is switched off is answered as
/// a record that is not there, whatever the request says; the payload is read
/// only for a record that is there; and the stock is written only where the
/// adjustment engine accepts it.
pub open spec fn change_plan(request: StockChange, event: ChangeEvent) -> ChangeAction {
    match event {
        ChangeEvent::Received => match direction_of(request.mode@) {
            None => ChangeAction::Respond(refusal(AdjustmentError::UnknownDirection)),
            Some(_) => ChangeAction::Fetch { id: request.id },
        },
        ChangeEvent::Unavailable => ChangeAction::Respond(Reply::spec_unavailable()),
        ChangeEvent::FetchFailed(failure) => ChangeAction::Respond(fetch_failure_reply(failure)),
        ChangeEvent::Fetched(current) => if !current.status {
            ChangeAction::Respond(not_fetched())
        } else {
            match request.payload {
                None => ChangeAction::Respond(
                    Reply::notice_only(Status::BadRequest, Notice::BadPayload),
                ),
                Some(update) => match adjustment(current, request.mode@, update.update as int) {
                    Err(e) => ChangeAction::Respond(refusal(e)),
                    Ok(stock) => ChangeAction::Write { id: request.id, stock: stock as i64 },
                },
            }
        },
        ChangeEvent::Written { id, name } => ChangeAction::Respond(
            Reply {
                status: Status::Success,
                notice: Some(Notice::StockUpdated),
                content: Content::StockChanged { id, name },
            },
        ),
        ChangeEvent::WriteFailed(failure) => ChangeAction::Respond(write_failure_reply(failure)),
    }
}

/// Builds the reply that turns an adjustment down.
fn refuse(e: AdjustmentError) -> (reply: Reply)
    ensures
        reply == refusal(e),
{
    Reply::with_notice(e.status(), Notice::Adjustment(e))
}

/// Decides the next step of a stock adjustment from the request and what
/// happened last.
pub fn change_by_id(request: &StockChange, event: ChangeEvent) -> (action: ChangeAction)
    ensures
        action == change_plan(*request, event),
{
    match event {
        ChangeEvent::Received => {
            let direction: Option<Direction> = Direction::parse(request.mode.as_str());
            match direction {
                None => ChangeAction::Respond(refuse(AdjustmentError::UnknownDirection)),
                Some(_) => ChangeAction::Fetch { id: request.id },
            }
        },
        ChangeEvent::Unavailable => ChangeAction::Respond(Reply::unavailable()),
        ChangeEvent::FetchFailed(failure) => {
            if failure.unreachable() {
                ChangeAction::Respond(Reply::unavailable())
            } else {
                ChangeAction::Respond(Reply::with_notice(Status::NotFound, Notice::FetchFailed))
            }
        },
        ChangeEvent::Fetched(current) => {
            if !current.status {
                return ChangeAction::Respond(
                    Reply::with_notice(Status::NotFound, Notice::FetchFailed),
                );
            }
            match request.payload {
                None => ChangeAction::Respond(
                    Reply::with_notice(Status::BadRequest, Notice::BadPayload),
                ),
                Some(update) => match compute_adjustment(
                    &current,
                    request.mode.as_str(),
                    update.update,
                ) {
                    Err(e) => ChangeAction::Respond(refuse(e)),
                    Ok(stock) => ChangeAction::Write { id: request.id, stock },
                },
            }
        },
        ChangeEvent::Written { id, name } => ChangeAction::Respond(
            Reply {
                status: Status::Success,
                notice: Some(Notice::StockUpdated),
                content: Content::StockChanged { id, name },
            },
        ),
        ChangeEvent::WriteFailed(failure) => {
            if failure.unreachable() {
                ChangeAction::Respond(Reply::unavailable())
            } else {
                ChangeAction::Respond(
                    Reply::with_notice(Status::InternalServerError, Notice::StockUpdateFailed),
                )
            }
        },
    }
}

/// A request whose direction is unknown never reaches the store: whatever
/// happened last, it is answered, and when it arrives it is turned down as
/// not found.
pub proof fn lemma_unknown_direction_never_reaches_store(request: StockChange, event: ChangeEvent)
    requires
        direction_of(request.mode@) is None,
    ensures
        change_plan(request, event) is Respond,
        event == ChangeEvent::Received ==> change_plan(request, event) == ChangeAction::Respond(
            refusal(AdjustmentError::UnknownDirection),
        ),
{
}

/// The stock is written only after an active record was fetched, and the stock
/// written is the one the adjustment engine accepts for that record.
pub proof fn lemma_change_writes_accepted_stock(request: StockChange, event: ChangeEvent)
    requires
        change_plan(request, event) is Write,
    ensures
        event is Fetched,
        event->Fetched_0.status,
        request.payload is Some,
        change_plan(request, event)->Write_id == request.id,
        adjustment(event->Fetched_0, request.mode@, request.payload->Some_0.update as int)
            == Ok::<int, AdjustmentError>(change_plan(request, event)->stock as int),
{
}

/// A record that is switched off cannot be told from a record that is not
/// there: the adjustment answers both alike, and writes to neither.
pub proof fn lemma_inactive_is_absent(request: StockChange, current: Products)
    requires
        !current.status,
    ensures
        change_plan(request, ChangeEvent::Fetched(current)) == change_plan(
            request,
            ChangeEvent::FetchFailed(StoreFailure::RowNotFound),
        ),
        change_plan(request, ChangeEvent::Fetched(current)) == ChangeAction::Respond(
            not_fetched(),
        ),
{
}

/// An adjustment that finds the store out of reach reports it unavailable,
/// whether reaching it failed, or the fetch, or the write.
pub proof fn lemma_change_reports_unreachable_store(request: StockChange, failure: StoreFailure)
    requires
        failure.spec_unreachable(),
    ensures
        change_plan(request, ChangeEvent::Unavailable) == ChangeAction::Respond(
            Reply::spec_unavailable(),
        ),
        change_plan(request, ChangeEvent::FetchFailed(failure)) == ChangeAction::Respond(
            Reply::spec_unavailable(),
        ),
        change_plan(request, ChangeEvent::WriteFailed(failure)) == ChangeAction::Respond(
            Reply::spec_unavailable(),
        ),
{
}

/// No reply to an adjustment says that a record is switched off: that a
/// record is there but inactive is never shown to the caller.
pub proof fn lemma_change_never_names_inactive(request: StockChange, event: ChangeEvent)
    ensures
        change_plan(request, event) != ChangeAction::Respond(
            refusal(AdjustmentError::ProductInactive),
        ),
{
}

} // verus!
