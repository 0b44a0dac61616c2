//! Request payloads of the REST surface. Update payloads carry a field
//! mask naming the fields the client intends to change; fields outside
//! the mask are ignored even when the payload supplies them.

use crate::storage::{GeoPoint, GeoPolygon, Timestamp};
use vstd::prelude::*;

verus! {

/// Request to create an asset group.
#[derive(Clone, Debug, PartialEq, Eq)]
pub struct RegisterAssetGroupPayload {
    /// Optional identification name of the asset group.
    pub name: Option<String>,
    /// The UUID of an operator.
    pub owner: String,
    /// A list of UUIDs of assets.
    pub assets: Vec<String>,
}

/// Request to update an aircraft.
#[derive(Clone, Debug, PartialEq, Eq)]
pub struct UpdateAircraftPayload {
    /// The UUID of the aircraft to update.
    pub id: String,
    /// The vehicle model UUID, when the client wants to change it.
    pub vehicle_model_id: Option<String>,
    /// UUID of the hangar (vertiport) this aircraft is assigned to.
    pub hangar_id: Option<String>,
    /// UUID of the hangar bay (vertipad) this aircraft is assigned to.
    pub hangar_bay_id: Option<String>,
    /// The aircraft's serial number, when the client wants to change it.
    pub serial_number: Option<String>,
    /// The aircraft's registration number, when the client wants to
    /// change it.
    pub registration_number: Option<String>,
    /// Additional description of the aircraft.
    pub description: Option<String>,
    /// The UUID of an asset group, if available.
    pub asset_group_id: Option<String>,
    /// Recurrence-rule string for the aircraft's availability.
    pub schedule: Option<String>,
    /// Date of the aircraft's last maintenance, when the client wants to
    /// change it.
    pub last_maintenance: Option<Timestamp>,
    /// Date of the aircraft's next planned maintenance, when the client
    /// wants to change it.
    pub next_maintenance: Option<Timestamp>,
    /// The names of the fields to update; all others are ignored.
    pub mask: Vec<String>,
}

/// Request to update a vertiport.
#[derive(Clone, Debug, PartialEq, Eq)]
pub struct UpdateVertiportPayload {
    /// The UUID of the vertiport to update.
    pub id: String,
    /// Identification name of the vertiport.
    pub name: Option<String>,
    /// Additional description of the vertiport.
    pub description: Option<String>,
    /// Geographical area of the vertiport.
    pub geo_location: Option<GeoPolygon>,
    /// Recurrence-rule string for the vertiport's availability.
    pub schedule: Option<String>,
    /// The names of the fields to update; all others are ignored.
    pub mask: Vec<String>,
}

/// Request to update a vertipad.
#[derive(Clone, Debug, PartialEq, Eq)]
pub struct UpdateVertipadPayload {
    /// The UUID of the vertipad to update.
    pub id: String,
    /// The UUID of the vertiport the vertipad is located at.
    pub vertiport_id: Option<String>,
    /// Identification name of the vertipad.
    pub name: Option<String>,
    /// Geographical location of the vertipad.
    pub geo_location: Option<GeoPoint>,
    /// Whether the vertipad is in business.
    pub enabled: Option<bool>,
    /// Whether the vertipad is currently occupied.
    pub occupied: Option<bool>,
    /// Recurrence-rule string for the vertipad's availability.
    pub schedule: Option<String>,
    /// The names of the fields to update; all others are ignored.
    pub mask: Vec<String>,
}

} // verus!
