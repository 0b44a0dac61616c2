//! The asset-group resource: a group of assets that can be delegated to
//! another operator. The group routes exist on the REST surface but
//! their behaviour is not implemented; every call answers so.

use crate::rest_types::RegisterAssetGroupPayload;
use crate::status::StatusCode;
use crate::storage::Timestamp;
use vstd::prelude::*;

verus! {

/// A struct representing a group of assets.
#[derive(Clone, Debug, PartialEq, Eq)]
pub struct AssetGroup {
    /// UUID of the asset group.
    pub id: String,
    /// Optional identification name of the asset group.
    pub name: Option<String>,
    /// The UUID of the operator that owns the group.
    pub owner: String,
    /// Created-at time.
    pub created_at: Option<Timestamp>,
    /// Updated-at time.
    pub updated_at: Option<Timestamp>,
    /// The UUID of the operator the group is delegated to, if any.
    pub delegatee: Option<String>,
    /// The UUIDs of the assets in the group, never embedded resources.
    pub assets: Vec<String>,
}

/// Register an asset group.
pub fn register_asset_group(_payload: &RegisterAssetGroupPayload) -> (r: Result<
    String,
    StatusCode,
>)
    ensures
        r == Err::<String, StatusCode>(StatusCode::NotImplemented),
{
    Err(StatusCode::NotImplemented)
}

/// Update an asset group.
pub fn update_asset_group(_payload: &AssetGroup, _id: &str) -> (r: Result<String, StatusCode>)
    ensures
        r == Err::<String, StatusCode>(StatusCode::NotImplemented),
{
    Err(StatusCode::NotImplemented)
}

/// Remove an asset group.
pub fn remove_asset_group(_id: &str) -> (r: Result<String, StatusCode>)
    ensures
        r == Err::<String, StatusCode>(StatusCode::NotImplemented),
{
    Err(StatusCode::NotImplemented)
}

/// Get an asset group by its id.
pub fn get_asset_group_by_id(_id: &str) -> (r: Result<AssetGroup, StatusCode>)
    ensures
        r == Err::<AssetGroup, StatusCode>(StatusCode::NotImplemented),
{
    Err(StatusCode::NotImplemented)
}

} // verus!
