//! The replies the request handlers give: an outcome, a notice and whatever
//! content goes with them.

use crate::middleware::token::AuthError;
use crate::models::data::{Products, ValidationError};
use crate::stock::AdjustmentError;
use vstd::prelude::*;

verus! {

/// The outcome of a request, as a class of HTTP status.
#[derive(Debug, Clone, Copy, PartialEq, Eq, Structural)]
pub enum Status {
    Success,
    Created,
    BadRequest,
    Unauthorized,
    Forbidden,
    NotFound,
    Conflict,
    InternalServerError,
    ServiceUnavailable,
}

impl Status {
    /// The HTTP status code.
    pub open spec fn spec_code(self) -> u16 {
        match self {
            Status::Success => 200,
            Status::Created => 201,
            Status::BadRequest => 400,
            Status::Unauthorized => 401,
            Status::Forbidden => 403,
            Status::NotFound => 404,
            Status::Conflict => 409,
            Status::InternalServerError => 500,
            Status::ServiceUnavailable => 503,
        }
    }

    /// The HTTP status code.
    #[verifier::when_used_as_spec(spec_code)]
    pub fn code(self) -> (code: u16)
        ensures
            code == self.spec_code(),
    {
        match self {
            Status::Success => 200,
            Status::Created => 201,
            Status::BadRequest => 400,
            Status::Unauthorized => 401,
            Status::Forbidden => 403,
            Status::NotFound => 404,
            Status::Conflict => 409,
            Status::InternalServerError => 500,
            Status::ServiceUnavailable => 503,
        }
    }

    /// Whether the status reports a success.
    pub open spec fn is_success(self) -> bool {
        self == Status::Success || self == Status::Created
    }
}

/// The message of a reply. None of them carries a detail of the store's own
/// errors.
#[derive(Debug, Clone, Copy, PartialEq, Eq, Structural)]
pub enum Notice {
    /// The request could not be authenticated.
    Token(AuthError),
    /// The role of the token is not among those the operation asks for.
    InsufficientRole,
    /// The payload breaks the bound invariant.
    Validation(ValidationError),
    /// The stock adjustment was turned down.
    Adjustment(AdjustmentError),
    /// The body of a creation request could not be read.
    MissingData,
    /// The body of an update or adjustment request could not be read.
    BadPayload,
    /// A record was created.
    ProductCreated,
    /// The store holds a record with the same SKU already.
    ExistingSku,
    /// The store failed to create a record.
    SaveFailed,
    /// The store gave no record for an identifier, or one that is switched off.
    ObtainFailed,
    /// The store failed to list its records.
    ListFailed,
    /// The store gave no record for a SKU, or one that is switched off.
    SkuNotFound,
    /// The store could not be reached.
    StoreUnavailable,
    /// A record was replaced.
    ProductUpdated,
    /// The store replaced nothing: it failed, or holds no such record.
    UpdateFailed,
    /// The store gave no record to adjust, or one that is switched off.
    FetchFailed,
    /// The stock of a record was adjusted.
    StockUpdated,
    /// The store failed to write an adjusted stock.
    StockUpdateFailed,
    /// A record was removed.
    ProductRemoved,
    /// The store failed to remove a record.
    RemoveFailed,
}

impl AdjustmentError {
    /// The outcome reported for the error: not found for an unknown direction
    /// and for an inactive product, a bad request for a broken bound.
    pub open spec fn spec_status(&self) -> Status {
        match self {
            AdjustmentError::UnknownDirection => Status::NotFound,
            AdjustmentError::ProductInactive => Status::NotFound,
            AdjustmentError::MaximumExceeded => Status::BadRequest,
            AdjustmentError::InsufficientStock => Status::BadRequest,
        }
    }

    /// The outcome reported for the error.
    #[verifier::when_used_as_spec(spec_status)]
    pub fn status(&self) -> (status: Status)
        ensures
            status == self.spec_status(),
    {
        match self {
            AdjustmentError::UnknownDirection => Status::NotFound,
            AdjustmentError::ProductInactive => Status::NotFound,
            AdjustmentError::MaximumExceeded => Status::BadRequest,
            AdjustmentError::InsufficientStock => Status::BadRequest,
        }
    }
}

impl Notice {
    /// The text of the message.
    pub open spec fn spec_text(&self) -> Seq<char> {
        match self {
            Notice::Token(e) => e.spec_message(),
            Notice::InsufficientRole => "Error: You do not have authorization"@,
            Notice::Validation(e) => e.spec_message(),
            Notice::Adjustment(e) => e.spec_message(),
            Notice::MissingData => "Missing data"@,
            Notice::BadPayload => "Datos faltantes o tipos erroneos"@,
            Notice::ProductCreated => "The product has been created successfully"@,
            Notice::ExistingSku => "Existing SKU"@,
            Notice::SaveFailed => "Error saving data"@,
            Notice::ObtainFailed => "Error obtaining data or non-existent product"@,
            Notice::ListFailed => "Error getting data"@,
            Notice::SkuNotFound => "Product not found in inventory"@,
            Notice::StoreUnavailable => "Error al guardar los datos"@,
            Notice::ProductUpdated => "Se ha actualizado el producto exitosamente"@,
            Notice::UpdateFailed => "Error al actualizar los datos o producto inexistente"@,
            Notice::FetchFailed => "Error al obtener los datos o producto inexistente"@,
            Notice::StockUpdated => "Se ha actualizado el stock exitosamente"@,
            Notice::StockUpdateFailed => "Error al  actualizar los datos o producto inexistente"@,
            Notice::ProductRemoved => "Product successfully removed"@,
            Notice::RemoveFailed => "Error deleting product"@,
        }
    }

    /// The text of the message.
    pub fn text(&self) -> (text: String)
        ensures
            text@ == self.spec_text(),
    {
        match self {
            Notice::Token(e) => e.message(),
            Notice::InsufficientRole => "Error: You do not have authorization".to_owned(),
            Notice::Validation(e) => e.message(),
            Notice::Adjustment(e) => e.message(),
            Notice::MissingData => "Missing data".to_owned(),
            Notice::BadPayload => "Datos faltantes o tipos erroneos".to_owned(),
            Notice::ProductCreated => "The product has been created successfully".to_owned(),
            Notice::ExistingSku => "Existing SKU".to_owned(),
            Notice::SaveFailed => "Error saving data".to_owned(),
            Notice::ObtainFailed => "Error obtaining data or non-existent product".to_owned(),
            Notice::ListFailed => "Error getting data".to_owned(),
            Notice::SkuNotFound => "Product not found in inventory".to_owned(),
            Notice::StoreUnavailable => "Error al guardar los datos".to_owned(),
            Notice::ProductUpdated => "Se ha actualizado el producto exitosamente".to_owned(),
            Notice::UpdateFailed => "Error al actualizar los datos o producto inexistente".to_owned(),
            Notice::FetchFailed => "Error al obtener los datos o producto inexistente".to_owned(),
            Notice::StockUpdated => "Se ha actualizado el stock exitosamente".to_owned(),
            Notice::StockUpdateFailed =>
                "Error al  actualizar los datos o producto inexistente".to_owned(),
            Notice::ProductRemoved => "Product successfully removed".to_owned(),
            Notice::RemoveFailed => "Error deleting product".to_owned(),
        }
    }
}

/// What a full update wrote, as the store gave it back.
#[derive(Debug, Clone, PartialEq, Eq)]
pub struct UpdatedProduct {
    pub id: i32,
    pub name: String,
    pub stock: i32,
    pub maximun: i32,
    pub minimun: i32,
    pub status: bool,
    /// When the record was changed, in microseconds since the Unix epoch.
    pub updated_at: i64,
}

/// What a reply carries besides its notice.
#[derive(Debug, Clone, PartialEq, Eq)]
pub enum Content {
    /// Nothing but the notice.
    Nothing,
    /// The SKU that was asked for.
    Sku(String),
    /// One record.
    Product(Products),
    /// The records of a listing.
    Products(Vec<Products>),
    /// The identity of a record that was created.
    Created { id: i32, name: String, sku: Option<String> },
    /// The record that a full update wrote.
    Updated(UpdatedProduct),
    /// The identity of the record whose stock was adjusted.
    StockChanged { id: i32, name: String },
}

/// A reply to a request.
#[derive(Debug, Clone, PartialEq, Eq)]
pub struct Reply {
    pub status: Status,
    pub notice: Option<Notice>,
    pub content: Content,
}

impl Reply {
    /// The reply that carries a notice and nothing else.
    pub open spec fn notice_only(status: Status, notice: Notice) -> Reply {
        Reply { status, notice: Some(notice), content: Content::Nothing }
    }

    /// Builds the reply that carries a notice and nothing else.
    pub fn with_notice(status: Status, notice: Notice) -> (reply: Reply)
        ensures
            reply == Reply::notice_only(status, notice),
    {
        Reply { status, notice: Some(notice), content: Content::Nothing }
    }

    /// The reply given wherever the store could not be reached.
    pub open spec fn spec_unavailable() -> Reply {
        Reply::notice_only(Status::ServiceUnavailable, Notice::StoreUnavailable)
    }

    /// Builds the reply given wherever the store could not be reached.
    #[verifier::when_used_as_spec(spec_unavailable)]
    pub fn unavailable() -> (reply: Reply)
        ensures
            reply == Reply::spec_unavailable(),
    {
        Reply { status: Status::ServiceUnavailable, notice: Some(Notice::StoreUnavailable), content: Content::Nothing }
    }

    /// Whether the reply shows a record to the caller, alone or in a listing.
    pub open spec fn shows(&self, record: Products) -> bool {
        match self.content {
            Content::Product(shown) => shown == record,
            Content::Products(list) => list@.contains(record),
            _ => false,
        }
    }
}

} // verus!
