//! The operator resource: a legal entity that owns assets. The
//! operator routes validate their identifier and answer that their
//! behaviour is not implemented; an invalid identifier is rejected
//! before any backend work.

use crate::ids::{is_canonical_uuid, AssetId};
use crate::status::StatusCode;
use crate::storage::Timestamp;
use vstd::prelude::*;

verus! {

/// A struct representing the operator.
#[derive(Clone, Debug, PartialEq, Eq)]
pub struct Operator {
    /// UUID of the operator.
    pub id: String,
    /// The name of the operator.
    pub name: String,
    /// The country where the operator is located.
    pub country: String,
    /// The city where the operator is located.
    pub city: String,
    /// The address of the operator.
    pub address: String,
    /// The postal code of the operator.
    pub postal_code: String,
    /// The email of the operator.
    pub email: String,
    /// The phone number of the operator.
    pub phone: String,
    /// The website of the operator.
    pub website: String,
    /// The description of the operator.
    pub description: String,
    /// The logo of the operator.
    pub logo: String,
    /// Created-at time.
    pub created_at: Timestamp,
    /// Updated-at time.
    pub updated_at: Timestamp,
}

/// Get info about an operator by id.
pub fn get_operator(operator_id: &str) -> (r: Result<Operator, StatusCode>)
    ensures
        !is_canonical_uuid(operator_id@) ==> r == Err::<Operator, StatusCode>(
            StatusCode::BadRequest,
        ),
        is_canonical_uuid(operator_id@) ==> r == Err::<Operator, StatusCode>(
            StatusCode::NotImplemented,
        ),
{
    if crate::ids::is_uuid(operator_id) {
        Err(StatusCode::NotImplemented)
    } else {
        Err(StatusCode::BadRequest)
    }
}

/// Get all assets belonging to an operator.
pub fn get_all_assets_by_operator(operator_id: &str) -> (r: Result<Vec<AssetId>, StatusCode>)
    ensures
        !is_canonical_uuid(operator_id@) ==> r == Err::<Vec<AssetId>, StatusCode>(
            StatusCode::BadRequest,
        ),
        is_canonical_uuid(operator_id@) ==> r == Err::<Vec<AssetId>, StatusCode>(
            StatusCode::NotImplemented,
        ),
{
    if crate::ids::is_uuid(operator_id) {
        Err(StatusCode::NotImplemented)
    } else {
        Err(StatusCode::BadRequest)
    }
}

/// Get all grouped assets belonging to an operator: the assets not
/// being delegated to or from the operator.
pub fn get_all_grouped_assets(operator_id: &str) -> (r: Result<Vec<AssetId>, StatusCode>)
    ensures
        !is_canonical_uuid(operator_id@) ==> r == Err::<Vec<AssetId>, StatusCode>(
            StatusCode::BadRequest,
        ),
        is_canonical_uuid(operator_id@) ==> r == Err::<Vec<AssetId>, StatusCode>(
            StatusCode::NotImplemented,
        ),
{
    if crate::ids::is_uuid(operator_id) {
        Err(StatusCode::NotImplemented)
    } else {
        Err(StatusCode::BadRequest)
    }
}

/// Get all grouped assets delegated to an operator.
pub fn get_all_grouped_assets_delegated_to(operator_id: &str) -> (r: Result<
    Vec<AssetId>,
    StatusCode,
>)
    ensures
        !is_canonical_uuid(operator_id@) ==> r == Err::<Vec<AssetId>, StatusCode>(
            StatusCode::BadRequest,
        ),
        is_canonical_uuid(operator_id@) ==> r == Err::<Vec<AssetId>, StatusCode>(
            StatusCode::NotImplemented,
        ),
{
    if crate::ids::is_uuid(operator_id) {
        Err(StatusCode::NotImplemented)
    } else {
        Err(StatusCode::BadRequest)
    }
}

/// Get all grouped assets delegated from an operator.
pub fn get_all_grouped_assets_delegated_from(operator_id: &str) -> (r: Result<
    Vec<AssetId>,
    StatusCode,
>)
    ensures
        !is_canonical_uuid(operator_id@) ==> r == Err::<Vec<AssetId>, StatusCode>(
            StatusCode::BadRequest,
        ),
        is_canonical_uuid(operator_id@) ==> r == Err::<Vec<AssetId>, StatusCode>(
            StatusCode::NotImplemented,
        ),
{
    if crate::ids::is_uuid(operator_id) {
        Err(StatusCode::NotImplemented)
    } else {
        Err(StatusCode::BadRequest)
    }
}

} // verus!
