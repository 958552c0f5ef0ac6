//! The operations of the service and the roles each of them asks for.

use crate::middleware::token::Claims;
use crate::middleware::{
    access, administrative_capability, general_capability, user_validate, worker_validate,
};
use crate::reply::Reply;
use jsonwebtoken::errors::Error;
use vstd::prelude::*;

verus! {

/// An operation that a request can ask for.
#[derive(Debug, Clone, Copy, PartialEq, Eq, Structural)]
pub enum Operation {
    /// Read one record by its identifier.
    GetProductById,
    /// Read one record by its SKU.
    GetProductBySku,
    /// List the active records.
    GetAllProducts,
    /// Adjust the stock of one record within its bounds.
    ChangeById,
    /// Create a record.
    AddNewProduct,
    /// Replace the values of a record.
    UpdateProductById,
    /// Remove a record.
    DeleteProduct,
}

impl Operation {
    /// Whether the operation is reserved to administrators: creation, full
    /// update and removal are; reads and bounded stock adjustments are not.
    pub open spec fn spec_administrative(self) -> bool {
        self == Operation::AddNewProduct || self == Operation::UpdateProductById || self
            == Operation::DeleteProduct
    }

    /// Whether the operation is reserved to administrators.
    #[verifier::when_used_as_spec(spec_administrative)]
    pub fn administrative(self) -> (reserved: bool)
        ensures
            reserved == self.spec_administrative(),
    {
        match self {
            Operation::AddNewProduct => true,
            Operation::UpdateProductById => true,
            Operation::DeleteProduct => true,
            Operation::GetProductById => false,
            Operation::GetProductBySku => false,
            Operation::GetAllProducts => false,
            Operation::ChangeById => false,
        }
    }

    /// The roles the operation asks for.
    pub open spec fn required(self) -> Set<Seq<char>> {
        if self.spec_administrative() {
            administrative_capability()
        } else {
            general_capability()
        }
    }
}

/// The guard in front of an operation: the claims of a request that is
/// authenticated and holds one of the roles the operation asks for, or the
/// reply that turns the request away.
pub fn guard(operation: Operation, auth: Option<Result<Claims, Error>>) -> (r: Result<
    Claims,
    Reply,
>)
    ensures
        r == access(auth, operation.required()),
{
    if operation.administrative() {
        worker_validate(auth)
    } else {
        user_validate(auth)
    }
}

/// Whoever passes the guard of an operation reserved to administrators
/// passes the guard of every operation.
pub proof fn lemma_administrators_pass_everywhere(
    auth: Option<Result<Claims, Error>>,
    reserved: Operation,
    other: Operation,
)
    requires
        reserved.spec_administrative(),
        access(auth, reserved.required()) is Ok,
    ensures
        access(auth, other.required()) == access(auth, reserved.required()),
{
}

} // verus!
