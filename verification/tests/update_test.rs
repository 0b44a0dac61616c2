//! Tests of the partial-update engine and the field-mask semantics:
//! unmasked fields keep their stored value whatever the payload holds,
//! and masked fields with a supplied value take it.

use svc_assets::mask::FieldMask;
use svc_assets::rest_types::{
    UpdateAircraftPayload, UpdateVertipadPayload, UpdateVertiportPayload,
};
use svc_assets::storage::{Timestamp, VehicleData, VertipadData, VertiportData};
use svc_assets::update::{
    apply_mask_vehicle, apply_mask_vertipad, apply_mask_vertiport, merge_vehicle, merge_vertipad,
    merge_vertiport,
};

fn stored_vehicle() -> VehicleData {
    VehicleData {
        vehicle_model_id: "model-1".to_string(),
        serial_number: "1234".to_string(),
        registration_number: "N2133423".to_string(),
        description: Some("original".to_string()),
        asset_group_id: Some("group-1".to_string()),
        schedule: Some("sched-1".to_string()),
        hangar_id: Some("hangar-1".to_string()),
        hangar_bay_id: Some("bay-1".to_string()),
        last_maintenance: Some(Timestamp { seconds: 100, nanos: 0 }),
        next_maintenance: Some(Timestamp { seconds: 200, nanos: 0 }),
        created_at: Some(Timestamp { seconds: 1, nanos: 0 }),
        updated_at: Some(Timestamp { seconds: 2, nanos: 0 }),
    }
}

fn payload_with_mask(mask: Vec<String>) -> UpdateAircraftPayload {
    UpdateAircraftPayload {
        id: uuid::Uuid::new_v4().to_string(),
        vehicle_model_id: Some("model-2".to_string()),
        hangar_id: Some("hangar-2".to_string()),
        hangar_bay_id: None,
        serial_number: Some("5678".to_string()),
        registration_number: Some("N999".to_string()),
        description: Some("new".to_string()),
        asset_group_id: None,
        schedule: Some("sched-2".to_string()),
        last_maintenance: None,
        next_maintenance: Some(Timestamp { seconds: 300, nanos: 0 }),
        mask,
    }
}

#[test]
fn test_unmasked_fields_keep_stored_values() {
    // The payload changes every field it can, but the mask names none
    // of them: the stored record is unchanged.
    let stored = stored_vehicle();
    let payload = payload_with_mask(vec![]);
    let submitted = merge_vehicle(&payload, stored.clone());
    let after = apply_mask_vehicle(stored.clone(), submitted, &FieldMask { paths: vec![] });
    assert_eq!(after, stored);
}

#[test]
fn test_masked_fields_take_supplied_values() {
    let stored = stored_vehicle();
    let payload = payload_with_mask(vec![
        "serial_number".to_string(),
        "description".to_string(),
        "next_maintenance".to_string(),
    ]);
    let submitted = merge_vehicle(&payload, stored.clone());
    let mask = FieldMask { paths: payload.mask.clone() };
    let after = apply_mask_vehicle(stored.clone(), submitted, &mask);
    // Masked fields hold the supplied values.
    assert_eq!(after.serial_number, "5678");
    assert_eq!(after.description, Some("new".to_string()));
    assert_eq!(after.next_maintenance, Some(Timestamp { seconds: 300, nanos: 0 }));
    // Every other field kept its stored value.
    assert_eq!(after.vehicle_model_id, stored.vehicle_model_id);
    assert_eq!(after.registration_number, stored.registration_number);
    assert_eq!(after.asset_group_id, stored.asset_group_id);
    assert_eq!(after.schedule, stored.schedule);
    assert_eq!(after.hangar_id, stored.hangar_id);
    assert_eq!(after.hangar_bay_id, stored.hangar_bay_id);
    assert_eq!(after.last_maintenance, stored.last_maintenance);
    assert_eq!(after.created_at, stored.created_at);
    assert_eq!(after.updated_at, stored.updated_at);
}

#[test]
fn test_masked_field_clears_when_payload_omits_it() {
    // `hangar_bay_id` is a nullable field: absent from the payload
    // means clear, and with the field masked the clear reaches the
    // stored record.
    let stored = stored_vehicle();
    let payload = payload_with_mask(vec!["hangar_bay_id".to_string()]);
    let submitted = merge_vehicle(&payload, stored.clone());
    let mask = FieldMask { paths: payload.mask.clone() };
    let after = apply_mask_vehicle(stored, submitted, &mask);
    assert_eq!(after.hangar_bay_id, None);
}

#[test]
fn test_vertipad_update_respects_mask() {
    let stored = VertipadData {
        name: "Pad One".to_string(),
        vertiport_id: "port-1".to_string(),
        geo_location: None,
        enabled: true,
        occupied: false,
        schedule: Some("sched-1".to_string()),
        created_at: Some(Timestamp { seconds: 1, nanos: 0 }),
        updated_at: Some(Timestamp { seconds: 2, nanos: 0 }),
    };
    let payload = UpdateVertipadPayload {
        id: uuid::Uuid::new_v4().to_string(),
        vertiport_id: Some("port-2".to_string()),
        name: Some("Pad Two".to_string()),
        geo_location: None,
        enabled: Some(false),
        occupied: Some(true),
        schedule: Some("sched-2".to_string()),
        mask: vec!["occupied".to_string()],
    };
    let submitted = merge_vertipad(&payload, stored.clone());
    let mask = FieldMask { paths: payload.mask.clone() };
    let after = apply_mask_vertipad(stored.clone(), submitted, &mask);
    // The one masked field takes the supplied value.
    assert_eq!(after.occupied, true);
    // Everything else keeps its stored value, whatever the payload held.
    assert_eq!(after.name, stored.name);
    assert_eq!(after.vertiport_id, stored.vertiport_id);
    assert_eq!(after.enabled, stored.enabled);
    assert_eq!(after.geo_location, stored.geo_location);
    assert_eq!(after.schedule, stored.schedule);
}

#[test]
fn test_vertiport_update_respects_mask() {
    let stored = VertiportData {
        name: "Port One".to_string(),
        description: "first".to_string(),
        geo_location: None,
        schedule: Some("sched-1".to_string()),
        created_at: Some(Timestamp { seconds: 1, nanos: 0 }),
        updated_at: Some(Timestamp { seconds: 2, nanos: 0 }),
    };
    let payload = UpdateVertiportPayload {
        id: uuid::Uuid::new_v4().to_string(),
        name: Some("Port Two".to_string()),
        description: Some("second".to_string()),
        geo_location: None,
        schedule: None,
        mask: vec!["description".to_string()],
    };
    let submitted = merge_vertiport(payload, stored.clone());
    let mask = FieldMask { paths: vec!["description".to_string()] };
    let after = apply_mask_vertiport(stored.clone(), submitted, &mask);
    assert_eq!(after.description, "second");
    assert_eq!(after.name, stored.name);
    assert_eq!(after.geo_location, stored.geo_location);
    assert_eq!(after.schedule, stored.schedule);
}

#[test]
fn test_mask_contains_matches_exact_names() {
    let mask = FieldMask {
        paths: vec!["description".to_string(), "serial_number".to_string()],
    };
    assert!(mask.contains("description"));
    assert!(mask.contains("serial_number"));
    assert!(!mask.contains("registration_number"));
    assert!(!mask.contains("desc"));
    let empty = FieldMask { paths: vec![] };
    assert!(!empty.contains("description"));
}
