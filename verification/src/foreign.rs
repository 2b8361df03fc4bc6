//! Declarations of the types of other crates that values of this library
//! carry. Verus sees nothing inside them; the library only moves them around.
use vstd::prelude::*;

verus! {

/// `diesel::result::Error`: an error reported by the database layer.
#[verifier::external_type_specification]
#[verifier::external_body]
pub struct ExDieselError(diesel::result::Error);

/// `deadpool::managed::PoolError`: an error reported by the connection pool.
#[verifier::external_type_specification]
#[verifier::external_body]
#[verifier::reject_recursive_types(E)]
pub struct ExPoolError<E>(deadpool::managed::PoolError<E>);

/// `deadpool_diesel::Error`: the backend error of the diesel connection pool.
#[verifier::external_type_specification]
#[verifier::external_body]
pub struct ExDeadpoolDieselError(deadpool_diesel::Error);

/// `tokio::task::JoinError`: a task that could not be run to its end.
#[verifier::external_type_specification]
#[verifier::external_body]
pub struct ExJoinError(tokio::task::JoinError);

/// `serde_json::Value`: the serialized arguments of a job.
#[verifier::external_type_specification]
#[verifier::external_body]
pub struct ExJsonValue(serde_json::Value);

/// `serde_json::Error`: a failure to serialize the arguments of a job.
#[verifier::external_type_specification]
#[verifier::external_body]
pub struct ExJsonError(serde_json::Error);

/// `std::any::TypeId`: identifies the environment type of a job.
#[verifier::external_type_specification]
#[verifier::external_body]
pub struct ExTypeId(std::any::TypeId);

/// `std::sync::PoisonError`: a lock whose holder panicked.
#[verifier::external_type_specification]
#[verifier::external_body]
#[verifier::reject_recursive_types(T)]
pub struct ExPoisonError<T>(std::sync::PoisonError<T>);

} // verus!
