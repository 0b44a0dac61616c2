//! Tests of the shared asset attributes and the asset-group record.

use svc_assets::aircraft::Aircraft;
use svc_assets::group::AssetGroup;
use svc_assets::ids::AssetId;
use svc_assets::storage::Timestamp;
use svc_assets::structs::{AssetStatus, AssetsError, AssetsInfo, Basics};
use svc_assets::vertiport::Vertiport;

fn now_ish() -> Timestamp {
    Timestamp { seconds: 1_680_000_000, nanos: 0 }
}

#[test]
fn test_asset_basics() {
    let whitelisted_id = uuid::Uuid::new_v4().to_string();
    let mut basics = Basics {
        id: uuid::Uuid::new_v4().to_string(),
        name: Some("Test asset".to_string()),
        group_id: Some(uuid::Uuid::new_v4().to_string()),
        created_at: now_ish(),
        updated_at: now_ish(),
        whitelist: vec![whitelisted_id.clone(), "invalid".to_string()],
        status: AssetStatus::Available,
    };
    let mut asset = Aircraft {
        basics: basics.clone(),
        manufacturer: "Airbus".to_string(),
        model: "737-800".to_string(),
        serial_number: "12345".to_string(),
        registration_number: "N12345".to_string(),
        description: None,
        max_payload_kg: (1000.0f64).to_bits(),
        max_range_km: (1000.0f64).to_bits(),
        last_maintenance: None,
        next_maintenance: None,
        hangar_id: None,
    };

    assert_eq!(asset.id().unwrap(), AssetId::parse(&basics.id).unwrap());
    assert_eq!(asset.name(), basics.name.clone().unwrap());
    assert_eq!(asset.created_at(), basics.created_at);
    assert_eq!(asset.updated_at(), basics.updated_at);
    assert_eq!(asset.is_grouped(), true);
    assert_eq!(asset.is_public(), false);
    assert_eq!(asset.status(), basics.status);
    assert_eq!(asset.whitelist().len(), 1); // only one id passes validation
    assert_eq!(asset.whitelist().pop().unwrap().to_string(), whitelisted_id);

    // invalid id
    basics.id = "invalid".to_string();
    asset.basics = basics.clone();
    assert_eq!(asset.id(), Err(AssetsError::InvalidUuid));

    // invalid group id
    basics.id = uuid::Uuid::new_v4().to_string();
    basics.group_id = Some("invalid".to_string());
    asset.basics = basics.clone();
    assert_eq!(asset.group_id(), Err(AssetsError::InvalidUuid));
}

#[test]
fn test_assets_info_trait_methods_on_different_asset_types() {
    let basics = Basics {
        id: uuid::Uuid::new_v4().to_string(),
        name: Some("Test asset".to_string()),
        group_id: Some(uuid::Uuid::new_v4().to_string()),
        created_at: now_ish(),
        updated_at: now_ish(),
        whitelist: vec![uuid::Uuid::new_v4().to_string()],
        status: AssetStatus::Available,
    };
    let aircraft = Aircraft {
        basics: basics.clone(),
        manufacturer: "Boeing".to_string(),
        model: "737-800".to_string(),
        serial_number: "12345".to_string(),
        registration_number: "N12345".to_string(),
        description: None,
        max_payload_kg: (100.0f64).to_bits(),
        max_range_km: (100.0f64).to_bits(),
        last_maintenance: None,
        next_maintenance: None,
        hangar_id: None,
    };

    let vertiport = Vertiport {
        basics: basics.clone(),
        description: "A vertiport".to_string(),
        geo_location: svc_assets::storage::GeoPolygon {
            exterior: svc_assets::storage::GeoLineString { points: vec![] },
            interiors: vec![],
        },
        schedule: None,
    };
    assert_eq!(aircraft.id().unwrap(), AssetId::parse(&basics.id).unwrap());
    assert_eq!(aircraft.name(), basics.name.clone().unwrap());
    assert_eq!(aircraft.created_at(), basics.created_at);
    assert_eq!(aircraft.updated_at(), basics.updated_at);
    assert_eq!(aircraft.is_grouped(), true);
    assert_eq!(aircraft.is_public(), false);
    assert_eq!(aircraft.whitelist().len(), 1);
    assert_eq!(aircraft.status(), basics.status);

    assert_eq!(vertiport.id().unwrap(), AssetId::parse(&basics.id).unwrap());
    assert_eq!(vertiport.name(), basics.name.clone().unwrap());
    assert_eq!(vertiport.created_at(), basics.created_at);
    assert_eq!(vertiport.updated_at(), basics.updated_at);
    assert_eq!(vertiport.is_grouped(), true);
    assert_eq!(vertiport.is_public(), false);
    assert_eq!(vertiport.whitelist().len(), 1);
    assert_eq!(vertiport.status(), basics.status);
}

#[test]
fn test_asset_group() {
    let group_id = uuid::Uuid::new_v4().to_string();

    let basics = Basics {
        id: uuid::Uuid::new_v4().to_string(),
        name: Some("Test asset".to_string()),
        group_id: Some(group_id.clone()),
        created_at: now_ish(),
        updated_at: now_ish(),
        whitelist: vec![uuid::Uuid::new_v4().to_string()],
        status: AssetStatus::Available,
    };
    let aircraft = Aircraft {
        basics: basics.clone(),
        manufacturer: "Airbus".to_string(),
        model: "737-800".to_string(),
        serial_number: "12345".to_string(),
        registration_number: "N12345".to_string(),
        description: None,
        max_payload_kg: (1000.0f64).to_bits(),
        max_range_km: (1000.0f64).to_bits(),
        last_maintenance: None,
        next_maintenance: None,
        hangar_id: None,
    };

    let vertiport = Vertiport {
        basics: basics.clone(),
        description: "A vertiport".to_string(),
        geo_location: svc_assets::storage::GeoPolygon {
            exterior: svc_assets::storage::GeoLineString { points: vec![] },
            interiors: vec![],
        },
        schedule: None,
    };

    let asset_group = AssetGroup {
        id: group_id.clone(),
        name: Some("Test group".to_string()),
        owner: uuid::Uuid::new_v4().to_string(),
        created_at: Some(now_ish()),
        updated_at: Some(now_ish()),
        delegatee: None,
        assets: vec![
            aircraft.id().unwrap().to_string(),
            vertiport.id().unwrap().to_string(),
        ],
    };

    assert_eq!(&asset_group.id, &group_id);
    assert_eq!(asset_group.name, Some("Test group".to_string()));

    assert_eq!(asset_group.assets.len(), 2);
    assert_eq!(asset_group.assets[0], aircraft.id().unwrap().to_string());
    assert_eq!(asset_group.assets[1], vertiport.id().unwrap().to_string());

    assert_eq!(&aircraft.group_id().unwrap().unwrap().to_string(), &group_id);
    assert_eq!(&vertiport.group_id().unwrap().unwrap().to_string(), &group_id);
}

#[test]
fn test_assets_error_description() {
    assert_eq!(AssetsError::InvalidUuid.to_string(), "Invalid UUID");
}
