//! Tests of the vertipad adapter: how backend records become
//! vertipads, the shared-attribute getters, and the update pipeline.

use svc_assets::ids::AssetId;
use svc_assets::rest_types::UpdateVertipadPayload;
use svc_assets::status::StatusCode;
use svc_assets::storage::{GeoPoint, Timestamp, VertipadData, VertipadObject};
use svc_assets::structs::{AssetStatus, AssetsInfo, Basics};
use svc_assets::vertipad::{data_or_server_error, update_vertipad, Vertipad};

fn sample_point() -> GeoPoint {
    GeoPoint {
        latitude: (0.0f64).to_bits(),
        longitude: (0.0f64).to_bits(),
        altitude: (0.0f64).to_bits(),
    }
}

fn sample_vertipad_data() -> VertipadData {
    VertipadData {
        name: "Test Vertipad".to_string(),
        vertiport_id: "test-vertiport".to_string(),
        geo_location: Some(sample_point()),
        enabled: true,
        occupied: false,
        schedule: None,
        created_at: Some(Timestamp { seconds: 1_600_000_000, nanos: 11 }),
        updated_at: Some(Timestamp { seconds: 1_600_000_100, nanos: 22 }),
    }
}

#[test]
fn test_vertipad_basics_trait_methods() {
    let sample = sample_vertipad_data();
    let expected_name = "Test asset".to_string();
    let basics = Basics {
        id: uuid::Uuid::new_v4().to_string(),
        name: Some(expected_name.clone()),
        group_id: Some(uuid::Uuid::new_v4().to_string()),
        created_at: sample
            .created_at
            .expect("mock didn't return a created_at date."),
        updated_at: sample
            .updated_at
            .expect("mock didn't return a updated_at date."),
        whitelist: vec![uuid::Uuid::new_v4().to_string()],
        status: AssetStatus::Available,
    };

    let mut vertipad = Vertipad {
        basics: basics.clone(),
        geo_location: sample.geo_location.unwrap(),
        vertiport_id: sample.vertiport_id,
        enabled: sample.enabled,
        occupied: sample.occupied,
        schedule: sample.schedule,
    };
    assert_eq!(vertipad.id().unwrap(), AssetId::parse(&basics.id).unwrap());
    assert_eq!(vertipad.name(), expected_name);
    assert_eq!(vertipad.created_at(), basics.created_at);
    assert_eq!(vertipad.updated_at(), basics.updated_at);
    assert_eq!(vertipad.is_grouped(), true);
    assert_eq!(vertipad.is_public(), false);
    assert_eq!(vertipad.status(), basics.status);

    vertipad.basics.name = None;
    assert_eq!(vertipad.full_name(), "Unnamed Vertipad");

    vertipad.basics.group_id = None;
    assert_eq!(vertipad.is_grouped(), false);
    assert_eq!(vertipad.group_id(), Ok(None));
}

#[test]
fn test_vertipad_from_vertipad_object() {
    let expected_vertipad_id = uuid::Uuid::new_v4().to_string();
    let mut vertipad_data = sample_vertipad_data();
    let mut vertipad_obj = VertipadObject {
        id: expected_vertipad_id.clone(),
        data: Some(vertipad_data.clone()),
    };
    let vertipad_result = Vertipad::from_object(&vertipad_obj);
    assert!(vertipad_result.is_ok());
    let vertipad: Vertipad = vertipad_result.unwrap();

    assert_eq!(vertipad.id(), Ok(AssetId::parse(&expected_vertipad_id).unwrap()));
    assert_eq!(vertipad.name(), vertipad_data.name);
    assert_eq!(
        vertipad.created_at(),
        vertipad_data
            .created_at
            .clone()
            .expect("mock didn't return a created_at date.")
    );
    assert_eq!(
        vertipad.updated_at(),
        vertipad_data
            .updated_at
            .clone()
            .expect("mock didn't return a updated_at date.")
    );
    assert_eq!(vertipad.is_grouped(), false);
    assert_eq!(vertipad.is_public(), true);
    assert_eq!(vertipad.status(), AssetStatus::Available);

    vertipad_obj.data = None;
    let result = Vertipad::from_object(&vertipad_obj);
    assert_eq!(result.unwrap_err(), "(try_from) vertipad data is missing");

    vertipad_data.updated_at = None;
    vertipad_obj.data = Some(vertipad_data.clone());
    let result = Vertipad::from_object(&vertipad_obj);
    assert_eq!(
        result.unwrap_err(),
        "(try_from) updated_at field empty but expected."
    );

    vertipad_data.created_at = None;
    vertipad_data.updated_at = Some(Timestamp { seconds: 1_700_000_000, nanos: 0 });
    vertipad_obj.data = Some(vertipad_data.clone());
    let result = Vertipad::from_object(&vertipad_obj);
    assert_eq!(
        result.unwrap_err(),
        "(try_from) created_at field empty but expected."
    );

    vertipad_data.created_at = Some(Timestamp { seconds: 1_700_000_000, nanos: 0 });
    vertipad_data.geo_location = None;
    vertipad_obj.data = Some(vertipad_data.clone());
    let result = Vertipad::from_object(&vertipad_obj);
    assert_eq!(
        result.unwrap_err(),
        "(try_from) geo_location empty but expected."
    );
}

#[test]
fn test_update_vertipad_merges_and_keeps_mask() {
    let current = sample_vertipad_data();
    let id = uuid::Uuid::new_v4().to_string();
    let payload = UpdateVertipadPayload {
        id: id.clone(),
        vertiport_id: Some(uuid::Uuid::new_v4().to_string()),
        name: Some("Updated Vertipad".to_string()),
        geo_location: None,
        enabled: None,
        occupied: Some(true),
        schedule: None,
        mask: vec!["name".to_string()],
    };
    let update = update_vertipad(&payload, current.clone()).unwrap();
    assert_eq!(update.id, id);
    let merged = update.data.unwrap();
    assert_eq!(merged.name, "Updated Vertipad");
    assert_eq!(merged.vertiport_id, payload.vertiport_id.clone().unwrap());
    assert_eq!(merged.enabled, current.enabled);
    assert_eq!(merged.occupied, true);
    // The location mirrors the payload outright.
    assert_eq!(merged.geo_location, None);
    assert_eq!(update.mask.unwrap().paths, vec!["name".to_string()]);

    let mut bad = payload.clone();
    bad.id = "invalid".to_string();
    assert_eq!(update_vertipad(&bad, current).unwrap_err(), StatusCode::BadRequest);
}

#[test]
fn test_vertipad_data_or_server_error() {
    let object = VertipadObject {
        id: uuid::Uuid::new_v4().to_string(),
        data: Some(sample_vertipad_data()),
    };
    assert!(data_or_server_error(object).is_ok());
    let empty = VertipadObject { id: uuid::Uuid::new_v4().to_string(), data: None };
    assert_eq!(
        data_or_server_error(empty).unwrap_err(),
        StatusCode::InternalServerError
    );
}
