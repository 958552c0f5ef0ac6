//! Authentication of a request and authorization of its role.

pub mod token;

use crate::middleware::token::{get_token_data, token_data, AuthError, Claims};
use crate::reply::{Notice, Reply, Status};
use jsonwebtoken::errors::Error;
use vstd::prelude::*;

verus! {

/// Whether `role` is one of the roles in `required`, letter for letter.
pub open spec fn role_listed(role: Seq<char>, required: Seq<String>) -> bool {
    exists|i: int| 0 <= i < required.len() && (#[trigger] required[i])@ == role
}

/// The set of roles that a list of required roles stands for.
pub open spec fn capability(required: Seq<String>) -> Set<Seq<char>> {
    Set::new(|role: Seq<char>| role_listed(role, required))
}

/// The roles that may read the inventory and adjust stock within bounds.
pub open spec fn general_capability() -> Set<Seq<char>> {
    set!["admin"@, "user"@]
}

/// The roles that may create, replace and remove records.
pub open spec fn administrative_capability() -> Set<Seq<char>> {
    set!["admin"@]
}

/// What the guard in front of an operation answers: the claims of a request
/// that is authenticated and whose role is in `required`; an unauthorized
/// reply where authentication fails; a forbidden reply where the role is
/// not in `required`. Nothing but the membership of the role decides between
/// the first and the last.
pub open spec fn access(auth: Option<Result<Claims, Error>>, required: Set<Seq<char>>) -> Result<
    Claims,
    Reply,
> {
    match token_data(auth) {
        Err(e) => Err(Reply::notice_only(Status::Unauthorized, Notice::Token(e))),
        Ok(claims) => if required.contains(claims.rol@) {
            Ok(claims)
        } else {
            Err(Reply::notice_only(Status::Forbidden, Notice::InsufficientRole))
        },
    }
}

/// Decides whether a role may pass: it may exactly when it is one of the
/// required roles.
pub fn authorize(role: &String, required: &[String]) -> (allowed: bool)
    ensures
        allowed == capability(required@).contains(role@),
{
    let mut i: usize = 0;
    while i < required.len()
        invariant
            i <= required@.len(),
            forall|j: int| 0 <= j < i ==> (#[trigger] required@[j])@ != role@,
        decreases required@.len() - i,
    {
        if required[i] == *role {
            return true;
        }
        i = i + 1;
    }
    false
}

/// Authenticates a request and authorizes its role against the roles in
/// `rols`. On success the claims are handed on, so that what follows need not
/// derive the role again.
pub fn validate_request(auth: Option<Result<Claims, Error>>, rols: &[String]) -> (r: Result<
    Claims,
    Reply,
>)
    ensures
        r == access(auth, capability(rols@)),
{
    match get_token_data(auth) {
        Ok(info) => {
            if !authorize(&info.rol, rols) {
                return Err(Reply::with_notice(Status::Forbidden, Notice::InsufficientRole));
            }
            Ok(info)
        },
        Err(error) => Err(Reply::with_notice(Status::Unauthorized, Notice::Token(error))),
    }
}

/// The guard in front of reads and bounded stock adjustments: the roles
/// `admin` and `user` pass.
pub fn user_validate(auth: Option<Result<Claims, Error>>) -> (r: Result<Claims, Reply>)
    ensures
        r == access(auth, general_capability()),
{
    let rols: Vec<String> = vec!["admin".to_owned(), "user".to_owned()];
    proof {
        assert(rols@[0]@ == "admin"@);
        assert(rols@[1]@ == "user"@);
        assert(capability(rols@) =~= general_capability());
    }
    validate_request(auth, rols.as_slice())
}

/// The guard in front of creation, full update and removal: only the role
/// `admin` passes.
pub fn worker_validate(auth: Option<Result<Claims, Error>>) -> (r: Result<Claims, Reply>)
    ensures
        r == access(auth, administrative_capability()),
{
    let rols: Vec<String> = vec!["admin".to_owned()];
    proof {
        assert(rols@[0]@ == "admin"@);
        assert(capability(rols@) =~= administrative_capability());
    }
    validate_request(auth, rols.as_slice())
}

/// A role in the required set is always let through and a role outside it is
/// always turned down as forbidden, whatever else the claims hold.
pub proof fn lemma_access_by_membership(claims: Claims, required: Set<Seq<char>>)
    ensures
        required.contains(claims.rol@) ==> access(Some(Ok(claims)), required) == Ok::<
            Claims,
            Reply,
        >(claims),
        !required.contains(claims.rol@) ==> access(Some(Ok(claims)), required) == Err::<
            Claims,
            Reply,
        >(Reply::notice_only(Status::Forbidden, Notice::InsufficientRole)),
{
}

/// Access grows with the required set: whoever passes a guard passes every
/// guard that asks for a superset of its roles. In particular whoever may
/// administer may also read.
pub proof fn lemma_access_monotonic(
    auth: Option<Result<Claims, Error>>,
    narrow: Set<Seq<char>>,
    wide: Set<Seq<char>>,
)
    requires
        narrow.subset_of(wide),
        access(auth, narrow) is Ok,
    ensures
        access(auth, wide) == access(auth, narrow),
        administrative_capability().subset_of(general_capability()),
{
}

/// A request that is not authenticated is turned down as unauthorized at
/// every guard, with the reason authentication gave.
pub proof fn lemma_unauthenticated_is_unauthorized(
    auth: Option<Result<Claims, Error>>,
    required: Set<Seq<char>>,
    e: AuthError,
)
    requires
        token_data(auth) == Err::<Claims, AuthError>(e),
    ensures
        access(auth, required) == Err::<Claims, Reply>(
            Reply::notice_only(Status::Unauthorized, Notice::Token(e)),
        ),
{
}

} // verus!
