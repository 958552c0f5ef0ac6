//! Inventory payloads, stored products and the validation of stock bounds.

use vstd::prelude::*;

verus! {

/// A stored inventory record.
#[derive(Debug, Clone, PartialEq, Eq)]
pub struct Products {
    pub id: i32,
    pub name: String,
    pub stock: i32,
    pub minimun: i32,
    pub maximun: i32,
    /// When the record was created, in microseconds since the Unix epoch.
    pub created_at: i64,
    /// When the record was last changed, in microseconds since the Unix epoch.
    pub updated_at: i64,
    pub status: bool,
}

/// A stock adjustment request: the amount by which the stock changes.
#[derive(Debug, Clone, Copy, PartialEq, Eq, Structural)]
pub struct StockUpdate {
    pub update: i32,
}

/// An untrusted creation or update request.
#[derive(Debug, Clone, PartialEq, Eq)]
pub struct InventoryPayload {
    pub name: String,
    pub stock: Option<i32>,
    pub minimun: Option<i32>,
    pub maximun: Option<i32>,
    pub status: Option<bool>,
}

/// What a validated payload asks the store to hold.
#[derive(Debug, Clone, PartialEq, Eq)]
pub struct ProductValues {
    pub name: String,
    pub stock: i32,
    pub maximun: i32,
    pub minimun: i32,
    pub status: bool,
}

/// Why a payload was turned down.
#[derive(Debug, Clone, Copy, PartialEq, Eq, Structural)]
pub enum ValidationError {
    /// The minimum exceeds the maximum, or the stock lies outside the two.
    OutOfBounds,
    /// The maximum is zero or negative.
    NonPositiveMaximum,
}

/// The bound invariant of a stock triple.
pub open spec fn within_bounds(stock: int, maximum: int, minimum: int) -> bool {
    minimum <= stock <= maximum && maximum > 0
}

impl Products {
    /// Whether the record keeps the bound invariant.
    pub open spec fn bounded(&self) -> bool {
        within_bounds(self.stock as int, self.maximun as int, self.minimun as int)
    }
}

impl ValidationError {
    /// The text shown to the caller.
    pub open spec fn spec_message(&self) -> Seq<char> {
        match self {
            ValidationError::OutOfBounds =>
                "El mínimo no puede ser mayor al stock o el stock y minimo no pueden ser mayor que el máximo"@,
            ValidationError::NonPositiveMaximum =>
                "No pueden tener valores negativos o un máximo igual a 0"@,
        }
    }

    /// The text shown to the caller.
    pub fn message(&self) -> (text: String)
        ensures
            text@ == self.spec_message(),
    {
        match self {
            ValidationError::OutOfBounds =>
                "El mínimo no puede ser mayor al stock o el stock y minimo no pueden ser mayor que el máximo".to_owned(),
            ValidationError::NonPositiveMaximum =>
                "No pueden tener valores negativos o un máximo igual a 0".to_owned(),
        }
    }
}

impl InventoryPayload {
    /// The minimum the payload asks for: its own, or 0.
    pub open spec fn minimum(&self) -> int {
        match self.minimun {
            Some(m) => m as int,
            None => 0,
        }
    }

    /// The stock the payload asks for: its own, or the minimum.
    pub open spec fn stock_level(&self) -> int {
        match self.stock {
            Some(s) => s as int,
            None => self.minimum(),
        }
    }

    /// The maximum the payload asks for: its own, or one above the minimum.
    pub open spec fn maximum(&self) -> int {
        match self.maximun {
            Some(m) => m as int,
            None => self.minimum() + 1,
        }
    }

    /// What validation answers: the triple `[stock, maximum, minimum]`, or the
    /// reason for turning the payload down. A maximum that no `i32` can hold
    /// counts as out of bounds.
    pub open spec fn verdict(&self) -> Result<Seq<i32>, ValidationError> {
        if self.minimum() > self.maximum() || self.stock_level() > self.maximum()
            || self.stock_level() < self.minimum() || self.maximum() > i32::MAX {
            Err(ValidationError::OutOfBounds)
        } else if self.maximum() <= 0 {
            Err(ValidationError::NonPositiveMaximum)
        } else {
            Ok(seq![self.stock_level() as i32, self.maximum() as i32, self.minimum() as i32])
        }
    }

    /// Whether the payload asks for an active record: its own choice, or yes.
    pub open spec fn active(&self) -> bool {
        match self.status {
            Some(status) => status,
            None => true,
        }
    }

    /// What the payload asks the store to hold, where it is valid: its name and
    /// status beside the validated triple, each value of the triple in the
    /// field it is meant for.
    pub open spec fn spec_values(&self) -> Result<ProductValues, ValidationError> {
        match self.verdict() {
            Ok(triple) => Ok(
                ProductValues {
                    name: self.name,
                    stock: triple[0],
                    maximun: triple[1],
                    minimun: triple[2],
                    status: self.active(),
                },
            ),
            Err(e) => Err(e),
        }
    }

    /// Derives the triple `[stock, maximum, minimum]` from the payload, filling
    /// in what it leaves out, and checks the bound invariant on it.
    pub fn validate(&self) -> (r: Result<Vec<i32>, ValidationError>)
        ensures
            match r {
                Ok(v) => self.verdict() == Ok::<Seq<i32>, ValidationError>(v@),
                Err(e) => self.verdict() == Err::<Seq<i32>, ValidationError>(e),
            },
            r is Ok <==> within_bounds(self.stock_level(), self.maximum(), self.minimum())
                && self.maximum() <= i32::MAX,
    {
        let min: i32 = match self.minimun {
            Some(m) => m,
            None => 0,
        };
        let stock: i32 = match self.stock {
            Some(s) => s,
            None => min,
        };
        let max: i32 = match self.maximun {
            Some(m) => m,
            None => {
                if min == i32::MAX {
                    return Err(ValidationError::OutOfBounds);
                }
                min + 1
            },
        };
        if min > max || stock > max || stock < min {
            return Err(ValidationError::OutOfBounds);
        }
        if max <= 0 {
            return Err(ValidationError::NonPositiveMaximum);
        }
        Ok(vec![stock, max, min])
    }

    /// Validates the payload and names what it asks the store to hold.
    pub fn values(&self) -> (r: Result<ProductValues, ValidationError>)
        ensures
            r == self.spec_values(),
    {
        match self.validate() {
            Ok(triple) => {
                let status: bool = match self.status {
                    Some(status) => status,
                    None => true,
                };
                Ok(
                    ProductValues {
                        name: self.name.clone(),
                        stock: triple[0],
                        maximun: triple[1],
                        minimun: triple[2],
                        status,
                    },
                )
            },
            Err(e) => Err(e),
        }
    }
}

/// Validation accepts a payload exactly when the triple it asks for keeps the
/// bound invariant, and then answers that triple, stock first, maximum second,
/// minimum last; it turns down every other payload, for its bounds where the
/// stock or the minimum lies out of place, for its maximum where only that is
/// wrong. This holds of every payload whose maximum an `i32` can hold.
pub proof fn lemma_validation_accepts_bounded(payload: InventoryPayload)
    requires
        payload.maximum() <= i32::MAX,
    ensures
        payload.verdict() is Ok <==> within_bounds(
            payload.stock_level(),
            payload.maximum(),
            payload.minimum(),
        ),
        payload.verdict() is Ok ==> payload.verdict()->Ok_0 =~= seq![
            payload.stock_level() as i32,
            payload.maximum() as i32,
            payload.minimum() as i32,
        ],
        payload.verdict() == Err::<Seq<i32>, ValidationError>(ValidationError::OutOfBounds)
            <==> !(payload.minimum() <= payload.stock_level() <= payload.maximum()),
        payload.verdict() == Err::<Seq<i32>, ValidationError>(
            ValidationError::NonPositiveMaximum,
        ) <==> payload.minimum() <= payload.stock_level() <= payload.maximum()
            && payload.maximum() <= 0,
{
}

/// The one payload whose maximum no `i32` can hold is the payload that leaves
/// the maximum out and asks for the largest minimum there is. It is turned
/// down as out of bounds.
pub proof fn lemma_maximum_out_of_range(payload: InventoryPayload)
    ensures
        payload.maximum() > i32::MAX <==> payload.maximun is None && payload.minimun == Some(
            i32::MAX,
        ),
        payload.maximum() > i32::MAX ==> payload.verdict() == Err::<Seq<i32>, ValidationError>(
            ValidationError::OutOfBounds,
        ),
{
}

/// Every triple that validation answers keeps the bound invariant.
pub proof fn lemma_valid_triple_bounded(payload: InventoryPayload)
    requires
        payload.verdict() is Ok,
    ensures
        payload.verdict()->Ok_0.len() == 3,
        within_bounds(
            payload.verdict()->Ok_0[0] as int,
            payload.verdict()->Ok_0[1] as int,
            payload.verdict()->Ok_0[2] as int,
        ),
{
}

/// The payload that states a triple outright: its stock, maximum and minimum.
pub open spec fn explicit_payload(name: String, status: Option<bool>, triple: Seq<i32>)
    -> InventoryPayload {
    InventoryPayload {
        name,
        stock: Some(triple[0]),
        minimun: Some(triple[2]),
        maximun: Some(triple[1]),
        status,
    }
}

/// Validating a triple that validation answered gives the same triple again,
/// whatever name and status go with it.
pub proof fn lemma_validation_idempotent(
    payload: InventoryPayload,
    name: String,
    status: Option<bool>,
)
    requires
        payload.verdict() is Ok,
    ensures
        explicit_payload(name, status, payload.verdict()->Ok_0).verdict() == payload.verdict(),
{
    let triple = payload.verdict()->Ok_0;
    let again = explicit_payload(name, status, triple).verdict();
    assert(again is Ok);
    assert(again->Ok_0 =~= triple);
}

} // verus!
