use inventario_api::middleware::token::AuthError;
use inventario_api::models::data::ValidationError;
use inventario_api::reply::{Content, Notice, Reply, Status};
use inventario_api::stock::AdjustmentError;

#[test]
fn status_codes() {
    assert_eq!(Status::Success.code(), 200);
    assert_eq!(Status::Created.code(), 201);
    assert_eq!(Status::BadRequest.code(), 400);
    assert_eq!(Status::Unauthorized.code(), 401);
    assert_eq!(Status::Forbidden.code(), 403);
    assert_eq!(Status::NotFound.code(), 404);
    assert_eq!(Status::Conflict.code(), 409);
    assert_eq!(Status::InternalServerError.code(), 500);
    assert_eq!(Status::ServiceUnavailable.code(), 503);
}

#[test]
fn notice_texts() {
    assert_eq!(Notice::InsufficientRole.text(), "Error: You do not have authorization");
    assert_eq!(Notice::MissingData.text(), "Missing data");
    assert_eq!(Notice::BadPayload.text(), "Datos faltantes o tipos erroneos");
    assert_eq!(Notice::ProductCreated.text(), "The product has been created successfully");
    assert_eq!(Notice::ExistingSku.text(), "Existing SKU");
    assert_eq!(Notice::SaveFailed.text(), "Error saving data");
    assert_eq!(Notice::ObtainFailed.text(), "Error obtaining data or non-existent product");
    assert_eq!(Notice::ListFailed.text(), "Error getting data");
    assert_eq!(Notice::SkuNotFound.text(), "Product not found in inventory");
    assert_eq!(Notice::StoreUnavailable.text(), "Error al guardar los datos");
    assert_eq!(Notice::ProductUpdated.text(), "Se ha actualizado el producto exitosamente");
    assert_eq!(
        Notice::UpdateFailed.text(),
        "Error al actualizar los datos o producto inexistente"
    );
    assert_eq!(Notice::FetchFailed.text(), "Error al obtener los datos o producto inexistente");
    assert_eq!(Notice::StockUpdated.text(), "Se ha actualizado el stock exitosamente");
    assert_eq!(
        Notice::StockUpdateFailed.text(),
        "Error al  actualizar los datos o producto inexistente"
    );
    assert_eq!(Notice::ProductRemoved.text(), "Product successfully removed");
    assert_eq!(Notice::RemoveFailed.text(), "Error deleting product");
}

#[test]
fn notices_of_errors_carry_the_text_of_the_error() {
    assert_eq!(Notice::Token(AuthError::ExpiredToken).text(), "Expired token");
    assert_eq!(
        Notice::Validation(ValidationError::NonPositiveMaximum).text(),
        "No pueden tener valores negativos o un máximo igual a 0"
    );
    assert_eq!(
        Notice::Adjustment(AdjustmentError::InsufficientStock).text(),
        "No hay stock disponible"
    );
}

#[test]
fn the_reply_for_a_store_out_of_reach() {
    assert_eq!(
        Reply::unavailable(),
        Reply {
            status: Status::ServiceUnavailable,
            notice: Some(Notice::StoreUnavailable),
            content: Content::Nothing
        }
    );
    assert_eq!(Reply::unavailable().status.code(), 503);
}

#[test]
fn a_reply_with_a_notice_carries_nothing_else() {
    assert_eq!(
        Reply::with_notice(Status::Conflict, Notice::ExistingSku),
        Reply {
            status: Status::Conflict,
            notice: Some(Notice::ExistingSku),
            content: Content::Nothing
        }
    );
}
