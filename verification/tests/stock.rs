use inventario_api::models::data::Products;
use inventario_api::reply::Status;
use inventario_api::stock::{compute_adjustment, AdjustmentError, Direction};

fn product(stock: i32, minimun: i32, maximun: i32) -> Products {
    Products {
        id: 1,
        name: "Widget".to_string(),
        stock,
        minimun,
        maximun,
        created_at: 1_700_000_000_000_000,
        updated_at: 1_700_000_000_000_000,
        status: true,
    }
}

#[test]
fn an_increase_above_the_maximum_is_rejected() {
    assert_eq!(
        compute_adjustment(&product(8, 2, 10), "increase", 3),
        Err(AdjustmentError::MaximumExceeded)
    );
}

#[test]
fn a_decrease_within_bounds_is_accepted() {
    assert_eq!(compute_adjustment(&product(8, 2, 10), "decrease", 5), Ok(3));
}

#[test]
fn an_increase_may_reach_the_maximum() {
    assert_eq!(compute_adjustment(&product(8, 2, 10), "increase", 2), Ok(10));
    assert_eq!(compute_adjustment(&product(8, 2, 10), "increase", 0), Ok(8));
}

#[test]
fn a_decrease_may_reach_the_minimum() {
    assert_eq!(compute_adjustment(&product(8, 2, 10), "decrease", 6), Ok(2));
    assert_eq!(
        compute_adjustment(&product(8, 2, 10), "decrease", 7),
        Err(AdjustmentError::InsufficientStock)
    );
}

#[test]
fn an_unknown_direction_is_rejected_first() {
    let mut off = product(8, 2, 10);
    off.status = false;
    assert_eq!(compute_adjustment(&off, "double", 1), Err(AdjustmentError::UnknownDirection));
    assert_eq!(
        compute_adjustment(&product(8, 2, 10), "Increase", 1),
        Err(AdjustmentError::UnknownDirection)
    );
    assert_eq!(
        compute_adjustment(&product(8, 2, 10), "", 1),
        Err(AdjustmentError::UnknownDirection)
    );
    assert_eq!(
        compute_adjustment(&product(8, 2, 10), "increase ", 1),
        Err(AdjustmentError::UnknownDirection)
    );
}

#[test]
fn an_inactive_product_is_rejected_before_the_amount_is_looked_at() {
    let mut off = product(8, 2, 10);
    off.status = false;
    assert_eq!(compute_adjustment(&off, "increase", 1), Err(AdjustmentError::ProductInactive));
    assert_eq!(compute_adjustment(&off, "increase", 100), Err(AdjustmentError::ProductInactive));
    assert_eq!(compute_adjustment(&off, "decrease", 100), Err(AdjustmentError::ProductInactive));
}

#[test]
fn a_negative_amount_moves_the_stock_the_other_way() {
    assert_eq!(compute_adjustment(&product(8, 2, 10), "increase", -10), Ok(-2));
    assert_eq!(compute_adjustment(&product(8, 2, 10), "decrease", -10), Ok(18));
}

#[test]
fn the_new_stock_is_exact_beyond_thirty_two_bits() {
    assert_eq!(
        compute_adjustment(&product(i32::MAX, 0, i32::MAX), "decrease", i32::MIN),
        Ok(4_294_967_295)
    );
    assert_eq!(
        compute_adjustment(&product(i32::MIN, i32::MIN, 0), "increase", i32::MIN),
        Ok(-4_294_967_296)
    );
    assert_eq!(
        compute_adjustment(&product(i32::MAX, 0, i32::MAX), "increase", i32::MAX),
        Err(AdjustmentError::MaximumExceeded)
    );
    assert_eq!(
        compute_adjustment(&product(i32::MIN, i32::MIN, 0), "decrease", i32::MAX),
        Err(AdjustmentError::InsufficientStock)
    );
}

#[test]
fn rejection_matches_the_bounds_on_a_grid() {
    for stock in -3..=12 {
        for delta in -6..=6 {
            let current = product(stock, 2, 10);
            let up = compute_adjustment(&current, "increase", delta);
            if stock + delta > 10 {
                assert_eq!(up, Err(AdjustmentError::MaximumExceeded));
            } else {
                assert_eq!(up, Ok(i64::from(stock + delta)));
            }
            let down = compute_adjustment(&current, "decrease", delta);
            if stock - delta < 2 {
                assert_eq!(down, Err(AdjustmentError::InsufficientStock));
            } else {
                assert_eq!(down, Ok(i64::from(stock - delta)));
            }
        }
    }
}

#[test]
fn directions_are_read_letter_for_letter() {
    assert_eq!(Direction::parse("increase"), Some(Direction::Increase));
    assert_eq!(Direction::parse("decrease"), Some(Direction::Decrease));
    assert_eq!(Direction::parse("INCREASE"), None);
    assert_eq!(Direction::parse("decreas"), None);
    assert_eq!(Direction::parse("decreased"), None);
}

#[test]
fn adjustment_errors_have_their_outcome_and_text() {
    assert_eq!(AdjustmentError::UnknownDirection.status(), Status::NotFound);
    assert_eq!(AdjustmentError::ProductInactive.status(), Status::NotFound);
    assert_eq!(AdjustmentError::MaximumExceeded.status(), Status::BadRequest);
    assert_eq!(AdjustmentError::InsufficientStock.status(), Status::BadRequest);
    assert_eq!(AdjustmentError::UnknownDirection.message(), "Error al obtener el modo");
    assert_eq!(AdjustmentError::ProductInactive.message(), "Producto inexistente");
    assert_eq!(
        AdjustmentError::MaximumExceeded.message(),
        "El stock no puede superar el maximo"
    );
    assert_eq!(AdjustmentError::InsufficientStock.message(), "No hay stock disponible");
}
