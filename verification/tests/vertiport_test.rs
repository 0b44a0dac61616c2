//! Tests of the vertiport adapter: how backend records become
//! vertiports, the shared-attribute getters, and the update pipeline.

use svc_assets::ids::AssetId;
use svc_assets::rest_types::UpdateVertiportPayload;
use svc_assets::status::StatusCode;
use svc_assets::storage::{GeoLineString, GeoPoint, GeoPolygon, Timestamp, VertiportData,
    VertiportObject};
use svc_assets::structs::{AssetStatus, AssetsInfo, Basics};
use svc_assets::vertiport::{data_or_server_error, update_vertiport, Vertiport};

fn sample_polygon() -> GeoPolygon {
    let corner = GeoPoint {
        latitude: (1.0f64).to_bits(),
        longitude: (2.0f64).to_bits(),
        altitude: (0.0f64).to_bits(),
    };
    GeoPolygon {
        exterior: GeoLineString { points: vec![corner, corner, corner] },
        interiors: vec![],
    }
}

fn sample_vertiport_data() -> VertiportData {
    VertiportData {
        name: "Test Vertiport".to_string(),
        description: "Test description".to_string(),
        geo_location: Some(sample_polygon()),
        schedule: Some("Test schedule".to_string()),
        created_at: Some(Timestamp { seconds: 1_600_000_000, nanos: 11 }),
        updated_at: Some(Timestamp { seconds: 1_600_000_100, nanos: 22 }),
    }
}

#[test]
fn test_vertiport_basics_trait_methods() {
    let sample = sample_vertiport_data();
    let expected_name = "Test asset".to_string();
    let basics = Basics {
        id: uuid::Uuid::new_v4().to_string(),
        name: Some(expected_name.clone()),
        group_id: Some(uuid::Uuid::new_v4().to_string()),
        created_at: sample
            .created_at
            .expect("mock didn't return a created_at date."),
        updated_at: sample
            .updated_at
            .expect("mock didn't return a updated_at date."),
        whitelist: vec![uuid::Uuid::new_v4().to_string()],
        status: AssetStatus::Available,
    };

    let mut vertiport = Vertiport {
        basics: basics.clone(),
        description: sample.description,
        geo_location: sample.geo_location.unwrap(),
        schedule: sample.schedule,
    };
    assert_eq!(vertiport.id().unwrap(), AssetId::parse(&basics.id).unwrap());
    assert_eq!(vertiport.name(), expected_name);
    assert_eq!(vertiport.created_at(), basics.created_at);
    assert_eq!(vertiport.updated_at(), basics.updated_at);
    assert_eq!(vertiport.is_grouped(), true);
    assert_eq!(vertiport.is_public(), false);
    assert_eq!(vertiport.status(), basics.status);

    vertiport.basics.name = None;
    assert_eq!(vertiport.full_name(), "Unnamed Vertiport");

    vertiport.basics.group_id = None;
    assert_eq!(vertiport.is_grouped(), false);
    assert_eq!(vertiport.group_id(), Ok(None));
}

#[test]
fn test_vertiport_from_vertiport_object() {
    let expected_vertiport_id = uuid::Uuid::new_v4().to_string();
    let mut vertiport_data = sample_vertiport_data();
    let mut vertiport_obj = VertiportObject {
        id: expected_vertiport_id.clone(),
        data: Some(vertiport_data.clone()),
    };
    let vertiport_result = Vertiport::from_object(&vertiport_obj);
    assert!(vertiport_result.is_ok());
    let vertiport: Vertiport = vertiport_result.unwrap();

    assert_eq!(vertiport.id(), Ok(AssetId::parse(&expected_vertiport_id).unwrap()));
    assert_eq!(vertiport.name(), vertiport_data.name);
    assert_eq!(
        vertiport.created_at(),
        vertiport_data
            .created_at
            .clone()
            .expect("mock didn't return a created_at date.")
    );
    assert_eq!(
        vertiport.updated_at(),
        vertiport_data
            .updated_at
            .clone()
            .expect("mock didn't return a updated_at date.")
    );
    assert_eq!(vertiport.is_grouped(), false);
    assert_eq!(vertiport.is_public(), true);
    assert_eq!(vertiport.status(), AssetStatus::Available);

    vertiport_obj.data = None;
    let result = Vertiport::from_object(&vertiport_obj);
    assert_eq!(result.unwrap_err(), "(try_from) vertiport data is missing");

    vertiport_data.updated_at = None;
    vertiport_obj.data = Some(vertiport_data.clone());
    let result = Vertiport::from_object(&vertiport_obj);
    assert_eq!(
        result.unwrap_err(),
        "(try_from) updated_at field empty but expected."
    );

    vertiport_data.created_at = None;
    vertiport_data.updated_at = Some(Timestamp { seconds: 1_700_000_000, nanos: 0 });
    vertiport_obj.data = Some(vertiport_data.clone());
    let result = Vertiport::from_object(&vertiport_obj);
    assert_eq!(
        result.unwrap_err(),
        "(try_from) created_at field empty but expected."
    );

    vertiport_data.created_at = Some(Timestamp { seconds: 1_700_000_000, nanos: 0 });
    vertiport_data.geo_location = None;
    vertiport_obj.data = Some(vertiport_data.clone());
    let result = Vertiport::from_object(&vertiport_obj);
    assert_eq!(
        result.unwrap_err(),
        "(try_from) geo_location empty but expected."
    );
}

#[test]
fn test_update_vertiport_merges_and_keeps_mask() {
    let current = sample_vertiport_data();
    let id = uuid::Uuid::new_v4().to_string();
    let payload = UpdateVertiportPayload {
        id: id.clone(),
        name: Some("Updated Vertiport".to_string()),
        description: None,
        geo_location: None,
        schedule: None,
        mask: vec!["name".to_string()],
    };
    let update = update_vertiport(payload.clone(), current.clone()).unwrap();
    assert_eq!(update.id, id);
    let merged = update.data.unwrap();
    assert_eq!(merged.name, "Updated Vertiport");
    assert_eq!(merged.description, current.description);
    // The area and the schedule mirror the payload outright.
    assert_eq!(merged.geo_location, None);
    assert_eq!(merged.schedule, None);
    assert_eq!(update.mask.unwrap().paths, vec!["name".to_string()]);

    let mut bad = payload;
    bad.id = "invalid".to_string();
    assert_eq!(
        update_vertiport(bad, current).unwrap_err(),
        StatusCode::BadRequest
    );
}

#[test]
fn test_vertiport_data_or_server_error() {
    let object = VertiportObject {
        id: uuid::Uuid::new_v4().to_string(),
        data: Some(sample_vertiport_data()),
    };
    assert!(data_or_server_error(object).is_ok());
    let empty = VertiportObject { id: uuid::Uuid::new_v4().to_string(), data: None };
    assert_eq!(
        data_or_server_error(empty).unwrap_err(),
        StatusCode::InternalServerError
    );
}
