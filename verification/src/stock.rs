//! Bounded stock adjustment: a signed amount added to or taken from the stock
//! of one product, within the product's own minimum and maximum.

use crate::models::data::Products;
use vstd::prelude::*;

verus! {

/// The way an adjustment moves the stock.
#[derive(Debug, Clone, Copy, PartialEq, Eq, Structural)]
pub enum Direction {
    Increase,
    Decrease,
}

/// Why an adjustment was turned down.
#[derive(Debug, Clone, Copy, PartialEq, Eq, Structural)]
pub enum AdjustmentError {
    /// The direction is neither `increase` nor `decrease`.
    UnknownDirection,
    /// The product is switched off, and counts as absent.
    ProductInactive,
    /// The stock would rise above the product's maximum.
    MaximumExceeded,
    /// The stock would fall below the product's minimum.
    InsufficientStock,
}

/// The direction a mode names, if it names one.
pub open spec fn direction_of(mode: Seq<char>) -> Option<Direction> {
    if mode == "increase"@ {
        Some(Direction::Increase)
    } else if mode == "decrease"@ {
        Some(Direction::Decrease)
    } else {
        None
    }
}

/// The stock after moving it by `delta` in the given direction.
pub open spec fn moved(stock: int, direction: Direction, delta: int) -> int {
    match direction {
        Direction::Increase => stock + delta,
        Direction::Decrease => stock - delta,
    }
}

/// What an adjustment of `current` answers: the new stock, or the reason for
/// turning it down. The direction is looked at first, then whether the product
/// is active, then the bound on the side the stock moves to.
pub open spec fn adjustment(current: Products, mode: Seq<char>, delta: int) -> Result<
    int,
    AdjustmentError,
> {
    match direction_of(mode) {
        None => Err(AdjustmentError::UnknownDirection),
        Some(direction) => {
            let stock = moved(current.stock as int, direction, delta);
            if !current.status {
                Err(AdjustmentError::ProductInactive)
            } else if direction == Direction::Increase && stock > current.maximun {
                Err(AdjustmentError::MaximumExceeded)
            } else if direction == Direction::Decrease && stock < current.minimun {
                Err(AdjustmentError::InsufficientStock)
            } else {
                Ok(stock)
            }
        },
    }
}

impl AdjustmentError {
    /// The text shown to the caller.
    pub open spec fn spec_message(&self) -> Seq<char> {
        match self {
            AdjustmentError::UnknownDirection => "Error al obtener el modo"@,
            AdjustmentError::ProductInactive => "Producto inexistente"@,
            AdjustmentError::MaximumExceeded => "El stock no puede superar el maximo"@,
            AdjustmentError::InsufficientStock => "No hay stock disponible"@,
        }
    }

    /// The text shown to the caller.
    pub fn message(&self) -> (text: String)
        ensures
            text@ == self.spec_message(),
    {
        match self {
            AdjustmentError::UnknownDirection => "Error al obtener el modo".to_owned(),
            AdjustmentError::ProductInactive => "Producto inexistente".to_owned(),
            AdjustmentError::MaximumExceeded => "El stock no puede superar el maximo".to_owned(),
            AdjustmentError::InsufficientStock => "No hay stock disponible".to_owned(),
        }
    }
}

impl Direction {
    /// Reads a direction from the mode of a request.
    pub fn parse(mode: &str) -> (direction: Option<Direction>)
        ensures
            direction == direction_of(mode@),
    {
        let given: String = mode.to_owned();
        let increase: String = "increase".to_owned();
        let decrease: String = "decrease".to_owned();
        if given == increase {
            Some(Direction::Increase)
        } else if given == decrease {
            Some(Direction::Decrease)
        } else {
            None
        }
    }
}

/// Computes the stock that `current` would have after the adjustment, or turns
/// the adjustment down. The result is exact: it is held in an `i64`, which has
/// room for every sum and difference of two `i32` values.
pub fn compute_adjustment(current: &Products, direction: &str, delta: i32) -> (r: Result<
    i64,
    AdjustmentError,
>)
    ensures
        match r {
            Ok(stock) => adjustment(*current, direction@, delta as int) == Ok::<
                int,
                AdjustmentError,
            >(stock as int),
            Err(e) => adjustment(*current, direction@, delta as int) == Err::<
                int,
                AdjustmentError,
            >(e),
        },
{
    let parsed: Option<Direction> = Direction::parse(direction);
    match parsed {
        None => Err(AdjustmentError::UnknownDirection),
        Some(way) => {
            if !current.status {
                return Err(AdjustmentError::ProductInactive);
            }
            let stock: i64 = current.stock as i64;
            let amount: i64 = delta as i64;
            match way {
                Direction::Increase => {
                    let raised: i64 = stock + amount;
                    if raised > current.maximun as i64 {
                        Err(AdjustmentError::MaximumExceeded)
                    } else {
                        Ok(raised)
                    }
                },
                Direction::Decrease => {
                    let lowered: i64 = stock - amount;
                    if lowered < current.minimun as i64 {
                        Err(AdjustmentError::InsufficientStock)
                    } else {
                        Ok(lowered)
                    }
                },
            }
        },
    }
}

/// An increase of an active product is turned down exactly when the raised
/// stock exceeds the maximum, a decrease exactly when the lowered stock falls
/// short of the minimum; every other adjustment answers the exact sum or
/// difference.
pub proof fn lemma_adjustment_bounds(current: Products, delta: int)
    requires
        current.status,
    ensures
        adjustment(current, "increase"@, delta) is Err <==> current.stock + delta
            > current.maximun,
        adjustment(current, "decrease"@, delta) is Err <==> current.stock - delta
            < current.minimun,
        current.stock + delta <= current.maximun ==> adjustment(current, "increase"@, delta)
            == Ok::<int, AdjustmentError>(current.stock + delta),
        current.stock - delta >= current.minimun ==> adjustment(current, "decrease"@, delta)
            == Ok::<int, AdjustmentError>(current.stock - delta),
        current.stock + delta > current.maximun ==> adjustment(current, "increase"@, delta)
            == Err::<int, AdjustmentError>(AdjustmentError::MaximumExceeded),
        current.stock - delta < current.minimun ==> adjustment(current, "decrease"@, delta)
            == Err::<int, AdjustmentError>(AdjustmentError::InsufficientStock),
{
    lemma_modes_differ();
}

/// The two modes are different words.
pub proof fn lemma_modes_differ()
    ensures
        "increase"@ != "decrease"@,
        direction_of("increase"@) == Some(Direction::Increase),
        direction_of("decrease"@) == Some(Direction::Decrease),
{
    reveal_strlit("increase");
    reveal_strlit("decrease");
    assert("increase"@[0] == 'i');
    assert("decrease"@[0] == 'd');
}

/// An accepted adjustment by an amount that is not negative leaves a product
/// that kept the bound invariant within its bounds.
pub proof fn lemma_adjustment_keeps_bounds(current: Products, mode: Seq<char>, delta: int)
    requires
        current.bounded(),
        delta >= 0,
        adjustment(current, mode, delta) is Ok,
    ensures
        current.minimun <= adjustment(current, mode, delta)->Ok_0 <= current.maximun,
{
}

/// An accepted decrease never leaves a stock below zero where the minimum is
/// not negative.
pub proof fn lemma_decrease_stays_non_negative(current: Products, delta: int)
    requires
        current.minimun >= 0,
        adjustment(current, "decrease"@, delta) is Ok,
    ensures
        adjustment(current, "decrease"@, delta)->Ok_0 >= 0,
{
    lemma_modes_differ();
}

} // verus!
