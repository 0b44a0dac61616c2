//! The partial-update engine. Given the backend's current record and a
//! partial payload, it produces the fully merged record that travels to
//! the backend together with the client's field mask. The backend then
//! applies the mask: a stored field changes only when the mask names
//! it. `masked_vehicle` and its siblings are the shared model of that
//! mask application, and the lemmas state the two laws of an update:
//! unmasked fields are preserved whatever the payload holds, and masked
//! fields with a supplied value take that value.

use crate::mask::{mask_contains, mask_paths, FieldMask};
use crate::rest_types::{UpdateAircraftPayload, UpdateVertipadPayload, UpdateVertiportPayload};
use crate::storage::{VehicleData, VertipadData, VertiportData};
use crate::structs::{clone_opt_string, clone_string_vec};
use vstd::prelude::*;

verus! {

// ---------------------------------------------------------------------
// Aircraft (vehicle records)
// ---------------------------------------------------------------------
/// The gateway's merge of an aircraft update into the current record:
/// identification fields change only when the payload supplies them,
/// nullable fields are copied from the payload outright (absent means
/// clear), maintenance dates change only when supplied, and the
/// backend-owned bookkeeping times are untouched.
pub open spec fn merged_vehicle(p: UpdateAircraftPayload, current: VehicleData) -> VehicleData {
    VehicleData {
        vehicle_model_id: if p.vehicle_model_id is Some {
            p.vehicle_model_id.unwrap()
        } else {
            current.vehicle_model_id
        },
        serial_number: if p.serial_number is Some {
            p.serial_number.unwrap()
        } else {
            current.serial_number
        },
        registration_number: if p.registration_number is Some {
            p.registration_number.unwrap()
        } else {
            current.registration_number
        },
        description: p.description,
        asset_group_id: p.asset_group_id,
        schedule: p.schedule,
        hangar_id: p.hangar_id,
        hangar_bay_id: p.hangar_bay_id,
        last_maintenance: if p.last_maintenance is Some {
            p.last_maintenance
        } else {
            current.last_maintenance
        },
        next_maintenance: if p.next_maintenance is Some {
            p.next_maintenance
        } else {
            current.next_maintenance
        },
        created_at: current.created_at,
        updated_at: current.updated_at,
    }
}

/// Merge an aircraft update payload into the current backend record.
pub fn merge_vehicle(payload: &UpdateAircraftPayload, current: VehicleData) -> (r: VehicleData)
    ensures
        r == merged_vehicle(*payload, current),
{
    VehicleData {
        vehicle_model_id: match &payload.vehicle_model_id {
            Some(v) => v.clone(),
            None => current.vehicle_model_id,
        },
        serial_number: match &payload.serial_number {
            Some(v) => v.clone(),
            None => current.serial_number,
        },
        registration_number: match &payload.registration_number {
            Some(v) => v.clone(),
            None => current.registration_number,
        },
        description: clone_opt_string(&payload.description),
        asset_group_id: clone_opt_string(&payload.asset_group_id),
        schedule: clone_opt_string(&payload.schedule),
        hangar_id: clone_opt_string(&payload.hangar_id),
        hangar_bay_id: clone_opt_string(&payload.hangar_bay_id),
        last_maintenance: match payload.last_maintenance {
            Some(d) => Some(d),
            None => current.last_maintenance,
        },
        next_maintenance: match payload.next_maintenance {
            Some(d) => Some(d),
            None => current.next_maintenance,
        },
        created_at: current.created_at,
        updated_at: current.updated_at,
    }
}

/// The backend's application of a field mask to a vehicle record: each
/// stored field is replaced by the submitted one exactly when the mask
/// names it.
pub open spec fn masked_vehicle(
    stored: VehicleData,
    submitted: VehicleData,
    mask: Seq<Seq<char>>,
) -> VehicleData {
    VehicleData {
        vehicle_model_id: if mask_contains(mask, "vehicle_model_id"@) {
            submitted.vehicle_model_id
        } else {
            stored.vehicle_model_id
        },
        serial_number: if mask_contains(mask, "serial_number"@) {
            submitted.serial_number
        } else {
            stored.serial_number
        },
        registration_number: if mask_contains(mask, "registration_number"@) {
            submitted.registration_number
        } else {
            stored.registration_number
        },
        description: if mask_contains(mask, "description"@) {
            submitted.description
        } else {
            stored.description
        },
        asset_group_id: if mask_contains(mask, "asset_group_id"@) {
            submitted.asset_group_id
        } else {
            stored.asset_group_id
        },
        schedule: if mask_contains(mask, "schedule"@) {
            submitted.schedule
        } else {
            stored.schedule
        },
        hangar_id: if mask_contains(mask, "hangar_id"@) {
            submitted.hangar_id
        } else {
            stored.hangar_id
        },
        hangar_bay_id: if mask_contains(mask, "hangar_bay_id"@) {
            submitted.hangar_bay_id
        } else {
            stored.hangar_bay_id
        },
        last_maintenance: if mask_contains(mask, "last_maintenance"@) {
            submitted.last_maintenance
        } else {
            stored.last_maintenance
        },
        next_maintenance: if mask_contains(mask, "next_maintenance"@) {
            submitted.next_maintenance
        } else {
            stored.next_maintenance
        },
        created_at: if mask_contains(mask, "created_at"@) {
            submitted.created_at
        } else {
            stored.created_at
        },
        updated_at: if mask_contains(mask, "updated_at"@) {
            submitted.updated_at
        } else {
            stored.updated_at
        },
    }
}

/// Apply a field mask to a vehicle record, as the backend does.
pub fn apply_mask_vehicle(stored: VehicleData, submitted: VehicleData, mask: &FieldMask) -> (r:
    VehicleData)
    ensures
        r == masked_vehicle(stored, submitted, mask_paths(*mask)),
{
    VehicleData {
        vehicle_model_id: if mask.contains("vehicle_model_id") {
            submitted.vehicle_model_id
        } else {
            stored.vehicle_model_id
        },
        serial_number: if mask.contains("serial_number") {
            submitted.serial_number
        } else {
            stored.serial_number
        },
        registration_number: if mask.contains("registration_number") {
            submitted.registration_number
        } else {
            stored.registration_number
        },
        description: if mask.contains("description") {
            submitted.description
        } else {
            stored.description
        },
        asset_group_id: if mask.contains("asset_group_id") {
            submitted.asset_group_id
        } else {
            stored.asset_group_id
        },
        schedule: if mask.contains("schedule") {
            submitted.schedule
        } else {
            stored.schedule
        },
        hangar_id: if mask.contains("hangar_id") {
            submitted.hangar_id
        } else {
            stored.hangar_id
        },
        hangar_bay_id: if mask.contains("hangar_bay_id") {
            submitted.hangar_bay_id
        } else {
            stored.hangar_bay_id
        },
        last_maintenance: if mask.contains("last_maintenance") {
            submitted.last_maintenance
        } else {
            stored.last_maintenance
        },
        next_maintenance: if mask.contains("next_maintenance") {
            submitted.next_maintenance
        } else {
            stored.next_maintenance
        },
        created_at: if mask.contains("created_at") {
            submitted.created_at
        } else {
            stored.created_at
        },
        updated_at: if mask.contains("updated_at") {
            submitted.updated_at
        } else {
            stored.updated_at
        },
    }
}

/// Whether two vehicle records agree on the field named `f` (vacuously
/// true for a name that is no vehicle field).
pub open spec fn vehicle_fields_agree(a: VehicleData, b: VehicleData, f: Seq<char>) -> bool {
    &&& (f == "vehicle_model_id"@ ==> a.vehicle_model_id == b.vehicle_model_id)
    &&& (f == "serial_number"@ ==> a.serial_number == b.serial_number)
    &&& (f == "registration_number"@ ==> a.registration_number == b.registration_number)
    &&& (f == "description"@ ==> a.description == b.description)
    &&& (f == "asset_group_id"@ ==> a.asset_group_id == b.asset_group_id)
    &&& (f == "schedule"@ ==> a.schedule == b.schedule)
    &&& (f == "hangar_id"@ ==> a.hangar_id == b.hangar_id)
    &&& (f == "hangar_bay_id"@ ==> a.hangar_bay_id == b.hangar_bay_id)
    &&& (f == "last_maintenance"@ ==> a.last_maintenance == b.last_maintenance)
    &&& (f == "next_maintenance"@ ==> a.next_maintenance == b.next_maintenance)
    &&& (f == "created_at"@ ==> a.created_at == b.created_at)
    &&& (f == "updated_at"@ ==> a.updated_at == b.updated_at)
}

/// Whether the record `d` holds, for the field named `f`, the value the
/// aircraft payload supplied for it.
pub open spec fn vehicle_payload_applied(
    p: UpdateAircraftPayload,
    d: VehicleData,
    f: Seq<char>,
) -> bool {
    &&& (f == "vehicle_model_id"@ && p.vehicle_model_id is Some ==> d.vehicle_model_id
        == p.vehicle_model_id.unwrap())
    &&& (f == "serial_number"@ && p.serial_number is Some ==> d.serial_number
        == p.serial_number.unwrap())
    &&& (f == "registration_number"@ && p.registration_number is Some ==> d.registration_number
        == p.registration_number.unwrap())
    &&& (f == "description"@ ==> d.description == p.description)
    &&& (f == "asset_group_id"@ ==> d.asset_group_id == p.asset_group_id)
    &&& (f == "schedule"@ ==> d.schedule == p.schedule)
    &&& (f == "hangar_id"@ ==> d.hangar_id == p.hangar_id)
    &&& (f == "hangar_bay_id"@ ==> d.hangar_bay_id == p.hangar_bay_id)
    &&& (f == "last_maintenance"@ && p.last_maintenance is Some ==> d.last_maintenance
        == p.last_maintenance)
    &&& (f == "next_maintenance"@ && p.next_maintenance is Some ==> d.next_maintenance
        == p.next_maintenance)
}

/// A field name the mask does not carry keeps its stored value through
/// an update, regardless of what the submitted record holds for it.
pub proof fn lemma_vehicle_update_preserves(
    stored: VehicleData,
    submitted: VehicleData,
    mask: Seq<Seq<char>>,
    f: Seq<char>,
)
    requires
        !mask_contains(mask, f),
    ensures
        vehicle_fields_agree(masked_vehicle(stored, submitted, mask), stored, f),
{
}

/// A field name the mask carries, for which the payload supplies a
/// value, holds that value after the gateway's merge and the backend's
/// mask application.
pub proof fn lemma_vehicle_update_applies(
    stored: VehicleData,
    p: UpdateAircraftPayload,
    f: Seq<char>,
)
    requires
        mask_contains(p.mask.deep_view(), f),
    ensures
        vehicle_payload_applied(
            p,
            masked_vehicle(stored, merged_vehicle(p, stored), p.mask.deep_view()),
            f,
        ),
{
}

// ---------------------------------------------------------------------
// Vertipads
// ---------------------------------------------------------------------
/// The gateway's merge of a vertipad update: name, vertiport, enabled
/// and occupied change only when supplied; the location is copied from
/// the payload outright; the schedule and the bookkeeping times are
/// untouched.
pub open spec fn merged_vertipad(p: UpdateVertipadPayload, current: VertipadData) -> VertipadData {
    VertipadData {
        name: if p.name is Some {
            p.name.unwrap()
        } else {
            current.name
        },
        vertiport_id: if p.vertiport_id is Some {
            p.vertiport_id.unwrap()
        } else {
            current.vertiport_id
        },
        geo_location: p.geo_location,
        enabled: if p.enabled is Some {
            p.enabled.unwrap()
        } else {
            current.enabled
        },
        occupied: if p.occupied is Some {
            p.occupied.unwrap()
        } else {
            current.occupied
        },
        schedule: current.schedule,
        created_at: current.created_at,
        updated_at: current.updated_at,
    }
}

/// Merge a vertipad update payload into the current backend record.
pub fn merge_vertipad(payload: &UpdateVertipadPayload, current: VertipadData) -> (r: VertipadData)
    ensures
        r == merged_vertipad(*payload, current),
{
    VertipadData {
        name: match &payload.name {
            Some(v) => v.clone(),
            None => current.name,
        },
        vertiport_id: match &payload.vertiport_id {
            Some(v) => v.clone(),
            None => current.vertiport_id,
        },
        geo_location: payload.geo_location,
        enabled: match payload.enabled {
            Some(b) => b,
            None => current.enabled,
        },
        occupied: match payload.occupied {
            Some(b) => b,
            None => current.occupied,
        },
        schedule: current.schedule,
        created_at: current.created_at,
        updated_at: current.updated_at,
    }
}

/// The backend's application of a field mask to a vertipad record.
pub open spec fn masked_vertipad(
    stored: VertipadData,
    submitted: VertipadData,
    mask: Seq<Seq<char>>,
) -> VertipadData {
    VertipadData {
        name: if mask_contains(mask, "name"@) {
            submitted.name
        } else {
            stored.name
        },
        vertiport_id: if mask_contains(mask, "vertiport_id"@) {
            submitted.vertiport_id
        } else {
            stored.vertiport_id
        },
        geo_location: if mask_contains(mask, "geo_location"@) {
            submitted.geo_location
        } else {
            stored.geo_location
        },
        enabled: if mask_contains(mask, "enabled"@) {
            submitted.enabled
        } else {
            stored.enabled
        },
        occupied: if mask_contains(mask, "occupied"@) {
            submitted.occupied
        } else {
            stored.occupied
        },
        schedule: if mask_contains(mask, "schedule"@) {
            submitted.schedule
        } else {
            stored.schedule
        },
        created_at: if mask_contains(mask, "created_at"@) {
            submitted.created_at
        } else {
            stored.created_at
        },
        updated_at: if mask_contains(mask, "updated_at"@) {
            submitted.updated_at
        } else {
            stored.updated_at
        },
    }
}

/// Apply a field mask to a vertipad record, as the backend does.
pub fn apply_mask_vertipad(stored: VertipadData, submitted: VertipadData, mask: &FieldMask) -> (r:
    VertipadData)
    ensures
        r == masked_vertipad(stored, submitted, mask_paths(*mask)),
{
    VertipadData {
        name: if mask.contains("name") {
            submitted.name
        } else {
            stored.name
        },
        vertiport_id: if mask.contains("vertiport_id") {
            submitted.vertiport_id
        } else {
            stored.vertiport_id
        },
        geo_location: if mask.contains("geo_location") {
            submitted.geo_location
        } else {
            stored.geo_location
        },
        enabled: if mask.contains("enabled") {
            submitted.enabled
        } else {
            stored.enabled
        },
        occupied: if mask.contains("occupied") {
            submitted.occupied
        } else {
            stored.occupied
        },
        schedule: if mask.contains("schedule") {
            submitted.schedule
        } else {
            stored.schedule
        },
        created_at: if mask.contains("created_at") {
            submitted.created_at
        } else {
            stored.created_at
        },
        updated_at: if mask.contains("updated_at") {
            submitted.updated_at
        } else {
            stored.updated_at
        },
    }
}

/// Whether two vertipad records agree on the field named `f`.
pub open spec fn vertipad_fields_agree(a: VertipadData, b: VertipadData, f: Seq<char>) -> bool {
    &&& (f == "name"@ ==> a.name == b.name)
    &&& (f == "vertiport_id"@ ==> a.vertiport_id == b.vertiport_id)
    &&& (f == "geo_location"@ ==> a.geo_location == b.geo_location)
    &&& (f == "enabled"@ ==> a.enabled == b.enabled)
    &&& (f == "occupied"@ ==> a.occupied == b.occupied)
    &&& (f == "schedule"@ ==> a.schedule == b.schedule)
    &&& (f == "created_at"@ ==> a.created_at == b.created_at)
    &&& (f == "updated_at"@ ==> a.updated_at == b.updated_at)
}

/// Whether the record `d` holds, for the field named `f`, the value the
/// vertipad payload supplied for it. The payload's schedule is carried
/// for the backend's benefit but never applied by the gateway's merge,
/// so no claim is made of it.
pub open spec fn vertipad_payload_applied(
    p: UpdateVertipadPayload,
    d: VertipadData,
    f: Seq<char>,
) -> bool {
    &&& (f == "name"@ && p.name is Some ==> d.name == p.name.unwrap())
    &&& (f == "vertiport_id"@ && p.vertiport_id is Some ==> d.vertiport_id
        == p.vertiport_id.unwrap())
    &&& (f == "geo_location"@ ==> d.geo_location == p.geo_location)
    &&& (f == "enabled"@ && p.enabled is Some ==> d.enabled == p.enabled.unwrap())
    &&& (f == "occupied"@ && p.occupied is Some ==> d.occupied == p.occupied.unwrap())
}

/// A field name the mask does not carry keeps its stored value through
/// a vertipad update, regardless of what the submitted record holds.
pub proof fn lemma_vertipad_update_preserves(
    stored: VertipadData,
    submitted: VertipadData,
    mask: Seq<Seq<char>>,
    f: Seq<char>,
)
    requires
        !mask_contains(mask, f),
    ensures
        vertipad_fields_agree(masked_vertipad(stored, submitted, mask), stored, f),
{
}

/// A field name the mask carries, for which the payload supplies a
/// value, holds that value after the merge and the mask application.
pub proof fn lemma_vertipad_update_applies(
    stored: VertipadData,
    p: UpdateVertipadPayload,
    f: Seq<char>,
)
    requires
        mask_contains(p.mask.deep_view(), f),
    ensures
        vertipad_payload_applied(
            p,
            masked_vertipad(stored, merged_vertipad(p, stored), p.mask.deep_view()),
            f,
        ),
{
}

// ---------------------------------------------------------------------
// Vertiports
// ---------------------------------------------------------------------
/// The gateway's merge of a vertiport update: name and description
/// change only when supplied; the area and the schedule are copied from
/// the payload outright; the bookkeeping times are untouched.
pub open spec fn merged_vertiport(
    p: UpdateVertiportPayload,
    current: VertiportData,
) -> VertiportData {
    VertiportData {
        name: if p.name is Some {
            p.name.unwrap()
        } else {
            current.name
        },
        description: if p.description is Some {
            p.description.unwrap()
        } else {
            current.description
        },
        geo_location: p.geo_location,
        schedule: p.schedule,
        created_at: current.created_at,
        updated_at: current.updated_at,
    }
}

/// Merge a vertiport update payload into the current backend record.
pub fn merge_vertiport(payload: UpdateVertiportPayload, current: VertiportData) -> (r:
    VertiportData)
    ensures
        r == merged_vertiport(payload, current),
{
    VertiportData {
        name: match payload.name {
            Some(v) => v,
            None => current.name,
        },
        description: match payload.description {
            Some(v) => v,
            None => current.description,
        },
        geo_location: payload.geo_location,
        schedule: payload.schedule,
        created_at: current.created_at,
        updated_at: current.updated_at,
    }
}

/// The backend's application of a field mask to a vertiport record.
pub open spec fn masked_vertiport(
    stored: VertiportData,
    submitted: VertiportData,
    mask: Seq<Seq<char>>,
) -> VertiportData {
    VertiportData {
        name: if mask_contains(mask, "name"@) {
            submitted.name
        } else {
            stored.name
        },
        description: if mask_contains(mask, "description"@) {
            submitted.description
        } else {
            stored.description
        },
        geo_location: if mask_contains(mask, "geo_location"@) {
            submitted.geo_location
        } else {
            stored.geo_location
        },
        schedule: if mask_contains(mask, "schedule"@) {
            submitted.schedule
        } else {
            stored.schedule
        },
        created_at: if mask_contains(mask, "created_at"@) {
            submitted.created_at
        } else {
            stored.created_at
        },
        updated_at: if mask_contains(mask, "updated_at"@) {
            submitted.updated_at
        } else {
            stored.updated_at
        },
    }
}

/// Apply a field mask to a vertiport record, as the backend does.
pub fn apply_mask_vertiport(
    stored: VertiportData,
    submitted: VertiportData,
    mask: &FieldMask,
) -> (r: VertiportData)
    ensures
        r == masked_vertiport(stored, submitted, mask_paths(*mask)),
{
    VertiportData {
        name: if mask.contains("name") {
            submitted.name
        } else {
            stored.name
        },
        description: if mask.contains("description") {
            submitted.description
        } else {
            stored.description
        },
        geo_location: if mask.contains("geo_location") {
            submitted.geo_location
        } else {
            stored.geo_location
        },
        schedule: if mask.contains("schedule") {
            submitted.schedule
        } else {
            stored.schedule
        },
        created_at: if mask.contains("created_at") {
            submitted.created_at
        } else {
            stored.created_at
        },
        updated_at: if mask.contains("updated_at") {
            submitted.updated_at
        } else {
            stored.updated_at
        },
    }
}

/// Whether two vertiport records agree on the field named `f`.
pub open spec fn vertiport_fields_agree(a: VertiportData, b: VertiportData, f: Seq<char>) -> bool {
    &&& (f == "name"@ ==> a.name == b.name)
    &&& (f == "description"@ ==> a.description == b.description)
    &&& (f == "geo_location"@ ==> a.geo_location == b.geo_location)
    &&& (f == "schedule"@ ==> a.schedule == b.schedule)
    &&& (f == "created_at"@ ==> a.created_at == b.created_at)
    &&& (f == "updated_at"@ ==> a.updated_at == b.updated_at)
}

/// Whether the record `d` holds, for the field named `f`, the value the
/// vertiport payload supplied for it.
pub open spec fn vertiport_payload_applied(
    p: UpdateVertiportPayload,
    d: VertiportData,
    f: Seq<char>,
) -> bool {
    &&& (f == "name"@ && p.name is Some ==> d.name == p.name.unwrap())
    &&& (f == "description"@ && p.description is Some ==> d.description == p.description.unwrap())
    &&& (f == "geo_location"@ ==> d.geo_location == p.geo_location)
    &&& (f == "schedule"@ ==> d.schedule == p.schedule)
}

/// A field name the mask does not carry keeps its stored value through
/// a vertiport update, regardless of what the submitted record holds.
pub proof fn lemma_vertiport_update_preserves(
    stored: VertiportData,
    submitted: VertiportData,
    mask: Seq<Seq<char>>,
    f: Seq<char>,
)
    requires
        !mask_contains(mask, f),
    ensures
        vertiport_fields_agree(masked_vertiport(stored, submitted, mask), stored, f),
{
}

/// A field name the mask carries, for which the payload supplies a
/// value, holds that value after the merge and the mask application.
pub proof fn lemma_vertiport_update_applies(
    stored: VertiportData,
    p: UpdateVertiportPayload,
    f: Seq<char>,
)
    requires
        mask_contains(p.mask.deep_view(), f),
    ensures
        vertiport_payload_applied(
            p,
            masked_vertiport(stored, merged_vertiport(p, stored), p.mask.deep_view()),
            f,
        ),
{
}

/// Build the mask that travels to the backend from the payload's list
/// of field names.
pub fn mask_from_paths(paths: &Vec<String>) -> (r: FieldMask)
    ensures
        r.paths@ == paths@,
{
    FieldMask { paths: clone_string_vec(paths) }
}

} // verus!
