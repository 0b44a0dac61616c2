//! The storage service's wire representation, as the gateway sees it
//! once a message is decoded: plain records exchanged with the backend
//! RPC services. The transport itself lives outside the library.
//!
//! Coordinates are carried as raw IEEE 754 bit patterns: the gateway
//! never interprets them, it only hands them through, and floating
//! point stays outside the verified core.

use crate::ids::{is_canonical_uuid, normalize_uuid, validate_id};
use crate::status::StatusCode;
use vstd::prelude::*;

verus! {

/// A point in time: seconds and nanoseconds since the Unix epoch.
#[derive(Clone, Copy, Debug, PartialEq, Eq, Structural)]
pub struct Timestamp {
    /// Whole seconds since the epoch.
    pub seconds: i64,
    /// Nanoseconds past the second.
    pub nanos: i32,
}

/// A geographical point. Each coordinate is the bit pattern of the
/// backend's floating-point value, carried through unread.
#[derive(Clone, Copy, Debug, PartialEq, Eq, Structural)]
pub struct GeoPoint {
    /// Latitude, as a raw bit pattern.
    pub latitude: u64,
    /// Longitude, as a raw bit pattern.
    pub longitude: u64,
    /// Altitude, as a raw bit pattern.
    pub altitude: u64,
}

/// A connected line of geographical points.
#[derive(Clone, Debug, PartialEq, Eq)]
pub struct GeoLineString {
    /// The points of the line, in order.
    pub points: Vec<GeoPoint>,
}

/// A geographical area: an exterior ring and any number of interior
/// rings (holes).
#[derive(Clone, Debug, PartialEq, Eq)]
pub struct GeoPolygon {
    /// The outer boundary.
    pub exterior: GeoLineString,
    /// Holes within the outer boundary.
    pub interiors: Vec<GeoLineString>,
}

impl View for GeoLineString {
    type V = Seq<GeoPoint>;

    open spec fn view(&self) -> Seq<GeoPoint> {
        self.points@
    }
}

impl DeepView for GeoLineString {
    type V = Seq<GeoPoint>;

    open spec fn deep_view(&self) -> Seq<GeoPoint> {
        self@
    }
}

/// The mathematical value of a geographical area.
#[verifier::ext_equal]
pub ghost struct GeoPolygonView {
    /// The outer boundary.
    pub exterior: Seq<GeoPoint>,
    /// Holes within the outer boundary.
    pub interiors: Seq<Seq<GeoPoint>>,
}

impl View for GeoPolygon {
    type V = GeoPolygonView;

    open spec fn view(&self) -> GeoPolygonView {
        GeoPolygonView {
            exterior: self.exterior@,
            interiors: self.interiors@.map_values(|l: GeoLineString| l@),
        }
    }
}

impl DeepView for GeoPolygon {
    type V = GeoPolygonView;

    open spec fn deep_view(&self) -> GeoPolygonView {
        self@
    }
}

/// A by-id request to a backend service.
#[derive(Clone, Debug, PartialEq, Eq)]
pub struct Id {
    /// UUID of the record.
    pub id: String,
}

/// Build the by-id request for a raw path identifier: only canonical
/// UUID text reaches the backend, in its normalized spelling; anything
/// else is a client error and no backend call is made.
pub fn id_request(raw: &str) -> (r: Result<Id, StatusCode>)
    ensures
        r is Ok <==> is_canonical_uuid(raw@),
        r matches Ok(req) ==> req.id@ == normalize_uuid(raw@) && is_canonical_uuid(req.id@),
        !is_canonical_uuid(raw@) ==> r == Err::<Id, StatusCode>(StatusCode::BadRequest),
{
    match validate_id(raw) {
        Ok(id) => Ok(Id { id }),
        Err(e) => Err(e),
    }
}

/// The stored data of a vehicle record.
#[derive(Clone, Debug, PartialEq, Eq)]
pub struct VehicleData {
    /// UUID of the vehicle's model record.
    pub vehicle_model_id: String,
    /// Factory serial number.
    pub serial_number: String,
    /// Registration number (the N number in the US).
    pub registration_number: String,
    /// Optional free-form description.
    pub description: Option<String>,
    /// UUID of the asset group the vehicle belongs to, if any.
    pub asset_group_id: Option<String>,
    /// Optional recurrence-rule string for availability.
    pub schedule: Option<String>,
    /// UUID of the hangar (vertiport) the vehicle is assigned to.
    pub hangar_id: Option<String>,
    /// UUID of the hangar bay (vertipad) the vehicle is assigned to.
    pub hangar_bay_id: Option<String>,
    /// When the vehicle was last maintained.
    pub last_maintenance: Option<Timestamp>,
    /// When the vehicle is next due for maintenance.
    pub next_maintenance: Option<Timestamp>,
    /// When the record was created.
    pub created_at: Option<Timestamp>,
    /// When the record was last updated.
    pub updated_at: Option<Timestamp>,
}

/// The mathematical value of a vehicle record's data.
#[verifier::ext_equal]
pub ghost struct VehicleDataView {
    /// UUID of the vehicle's model record.
    pub vehicle_model_id: Seq<char>,
    /// Factory serial number.
    pub serial_number: Seq<char>,
    /// Registration number.
    pub registration_number: Seq<char>,
    /// Optional free-form description.
    pub description: Option<Seq<char>>,
    /// UUID of the asset group, if any.
    pub asset_group_id: Option<Seq<char>>,
    /// Optional availability schedule.
    pub schedule: Option<Seq<char>>,
    /// UUID of the assigned hangar.
    pub hangar_id: Option<Seq<char>>,
    /// UUID of the assigned hangar bay.
    pub hangar_bay_id: Option<Seq<char>>,
    /// When the vehicle was last maintained.
    pub last_maintenance: Option<Timestamp>,
    /// When the vehicle is next due for maintenance.
    pub next_maintenance: Option<Timestamp>,
    /// When the record was created.
    pub created_at: Option<Timestamp>,
    /// When the record was last updated.
    pub updated_at: Option<Timestamp>,
}

impl View for VehicleData {
    type V = VehicleDataView;

    open spec fn view(&self) -> VehicleDataView {
        VehicleDataView {
            vehicle_model_id: self.vehicle_model_id@,
            serial_number: self.serial_number@,
            registration_number: self.registration_number@,
            description: self.description.deep_view(),
            asset_group_id: self.asset_group_id.deep_view(),
            schedule: self.schedule.deep_view(),
            hangar_id: self.hangar_id.deep_view(),
            hangar_bay_id: self.hangar_bay_id.deep_view(),
            last_maintenance: self.last_maintenance,
            next_maintenance: self.next_maintenance,
            created_at: self.created_at,
            updated_at: self.updated_at,
        }
    }
}

impl DeepView for VehicleData {
    type V = VehicleDataView;

    open spec fn deep_view(&self) -> VehicleDataView {
        self@
    }
}

/// A vehicle record: its id and, when present, its data.
#[derive(Clone, Debug, PartialEq, Eq)]
pub struct VehicleObject {
    /// UUID of the record.
    pub id: String,
    /// The stored data; absent only when the backend violates its own
    /// contract.
    pub data: Option<VehicleData>,
}

/// The mathematical value of a vehicle record.
#[verifier::ext_equal]
pub ghost struct VehicleObjectView {
    /// UUID of the record.
    pub id: Seq<char>,
    /// The stored data, when present.
    pub data: Option<VehicleDataView>,
}

impl View for VehicleObject {
    type V = VehicleObjectView;

    open spec fn view(&self) -> VehicleObjectView {
        VehicleObjectView { id: self.id@, data: self.data.deep_view() }
    }
}

impl DeepView for VehicleObject {
    type V = VehicleObjectView;

    open spec fn deep_view(&self) -> VehicleObjectView {
        self@
    }
}

/// What the backend answers to a vehicle insert.
#[derive(Clone, Debug, PartialEq, Eq)]
pub struct VehicleResponse {
    /// The created record, when the insert succeeded.
    pub object: Option<VehicleObject>,
}

/// A vehicle update as sent to the backend: the merged record plus the
/// field mask the client supplied.
#[derive(Clone, Debug, PartialEq, Eq)]
pub struct VehicleUpdateObject {
    /// UUID of the record to update.
    pub id: String,
    /// The fully merged data to write.
    pub data: Option<VehicleData>,
    /// The client's field mask, passed through for the backend's own
    /// merge.
    pub mask: Option<crate::mask::FieldMask>,
}

/// The stored data of a vertipad record.
#[derive(Clone, Debug, PartialEq, Eq)]
pub struct VertipadData {
    /// Display name.
    pub name: String,
    /// UUID of the owning vertiport.
    pub vertiport_id: String,
    /// Where the vertipad is.
    pub geo_location: Option<GeoPoint>,
    /// Whether the vertipad is in business.
    pub enabled: bool,
    /// Whether the vertipad is currently occupied.
    pub occupied: bool,
    /// Optional recurrence-rule string for availability.
    pub schedule: Option<String>,
    /// When the record was created.
    pub created_at: Option<Timestamp>,
    /// When the record was last updated.
    pub updated_at: Option<Timestamp>,
}

/// The mathematical value of a vertipad record's data.
#[verifier::ext_equal]
pub ghost struct VertipadDataView {
    /// Display name.
    pub name: Seq<char>,
    /// UUID of the owning vertiport.
    pub vertiport_id: Seq<char>,
    /// Where the vertipad is.
    pub geo_location: Option<GeoPoint>,
    /// Whether the vertipad is in business.
    pub enabled: bool,
    /// Whether the vertipad is currently occupied.
    pub occupied: bool,
    /// Optional availability schedule.
    pub schedule: Option<Seq<char>>,
    /// When the record was created.
    pub created_at: Option<Timestamp>,
    /// When the record was last updated.
    pub updated_at: Option<Timestamp>,
}

impl View for VertipadData {
    type V = VertipadDataView;

    open spec fn view(&self) -> VertipadDataView {
        VertipadDataView {
            name: self.name@,
            vertiport_id: self.vertiport_id@,
            geo_location: self.geo_location,
            enabled: self.enabled,
            occupied: self.occupied,
            schedule: self.schedule.deep_view(),
            created_at: self.created_at,
            updated_at: self.updated_at,
        }
    }
}

impl DeepView for VertipadData {
    type V = VertipadDataView;

    open spec fn deep_view(&self) -> VertipadDataView {
        self@
    }
}

/// The mathematical value of a vertipad record.
#[verifier::ext_equal]
pub ghost struct VertipadObjectView {
    /// UUID of the record.
    pub id: Seq<char>,
    /// The stored data, when present.
    pub data: Option<VertipadDataView>,
}

/// A vertipad record: its id and, when present, its data.
#[derive(Clone, Debug, PartialEq, Eq)]
pub struct VertipadObject {
    /// UUID of the record.
    pub id: String,
    /// The stored data.
    pub data: Option<VertipadData>,
}

impl View for VertipadObject {
    type V = VertipadObjectView;

    open spec fn view(&self) -> VertipadObjectView {
        VertipadObjectView { id: self.id@, data: self.data.deep_view() }
    }
}

impl DeepView for VertipadObject {
    type V = VertipadObjectView;

    open spec fn deep_view(&self) -> VertipadObjectView {
        self@
    }
}

/// What the backend answers to a vertipad insert.
#[derive(Clone, Debug, PartialEq, Eq)]
pub struct VertipadResponse {
    /// The created record, when the insert succeeded.
    pub object: Option<VertipadObject>,
}

/// A vertipad update as sent to the backend.
#[derive(Clone, Debug, PartialEq, Eq)]
pub struct VertipadUpdateObject {
    /// UUID of the record to update.
    pub id: String,
    /// The fully merged data to write.
    pub data: Option<VertipadData>,
    /// The client's field mask.
    pub mask: Option<crate::mask::FieldMask>,
}

/// The stored data of a vertiport record.
#[derive(Clone, Debug, PartialEq, Eq)]
pub struct VertiportData {
    /// Display name.
    pub name: String,
    /// Free-form description.
    pub description: String,
    /// The vertiport's area.
    pub geo_location: Option<GeoPolygon>,
    /// Optional recurrence-rule string for availability.
    pub schedule: Option<String>,
    /// When the record was created.
    pub created_at: Option<Timestamp>,
    /// When the record was last updated.
    pub updated_at: Option<Timestamp>,
}

/// The mathematical value of a vertiport record's data.
#[verifier::ext_equal]
pub ghost struct VertiportDataView {
    /// Display name.
    pub name: Seq<char>,
    /// Free-form description.
    pub description: Seq<char>,
    /// The vertiport's area.
    pub geo_location: Option<GeoPolygonView>,
    /// Optional availability schedule.
    pub schedule: Option<Seq<char>>,
    /// When the record was created.
    pub created_at: Option<Timestamp>,
    /// When the record was last updated.
    pub updated_at: Option<Timestamp>,
}

impl View for VertiportData {
    type V = VertiportDataView;

    open spec fn view(&self) -> VertiportDataView {
        VertiportDataView {
            name: self.name@,
            description: self.description@,
            geo_location: self.geo_location.deep_view(),
            schedule: self.schedule.deep_view(),
            created_at: self.created_at,
            updated_at: self.updated_at,
        }
    }
}

impl DeepView for VertiportData {
    type V = VertiportDataView;

    open spec fn deep_view(&self) -> VertiportDataView {
        self@
    }
}

/// The mathematical value of a vertiport record.
#[verifier::ext_equal]
pub ghost struct VertiportObjectView {
    /// UUID of the record.
    pub id: Seq<char>,
    /// The stored data, when present.
    pub data: Option<VertiportDataView>,
}

/// A vertiport record: its id and, when present, its data.
#[derive(Clone, Debug, PartialEq, Eq)]
pub struct VertiportObject {
    /// UUID of the record.
    pub id: String,
    /// The stored data.
    pub data: Option<VertiportData>,
}

impl View for VertiportObject {
    type V = VertiportObjectView;

    open spec fn view(&self) -> VertiportObjectView {
        VertiportObjectView { id: self.id@, data: self.data.deep_view() }
    }
}

impl DeepView for VertiportObject {
    type V = VertiportObjectView;

    open spec fn deep_view(&self) -> VertiportObjectView {
        self@
    }
}

/// What the backend answers to a vertiport insert.
#[derive(Clone, Debug, PartialEq, Eq)]
pub struct VertiportResponse {
    /// The created record, when the insert succeeded.
    pub object: Option<VertiportObject>,
}

/// A vertiport update as sent to the backend.
#[derive(Clone, Debug, PartialEq, Eq)]
pub struct VertiportUpdateObject {
    /// UUID of the record to update.
    pub id: String,
    /// The fully merged data to write.
    pub data: Option<VertiportData>,
    /// The client's field mask.
    pub mask: Option<crate::mask::FieldMask>,
}

} // verus!
