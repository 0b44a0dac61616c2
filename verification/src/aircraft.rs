//! The aircraft resource adapter: the REST representation of an
//! aircraft, how backend vehicle records become aircraft, and
//! the pure steps of the aircraft handlers. The payload and range
//! capacities are carried as raw bit patterns of the backend's
//! floating-point values, never interpreted here.

use crate::ids::{is_canonical_uuid, normalize_uuid, AssetId};
use crate::rest_types::UpdateAircraftPayload;
use crate::status::StatusCode;
use crate::storage::{
    Timestamp, VehicleData, VehicleObject, VehicleObjectView, VehicleResponse, VehicleUpdateObject,
};
use crate::structs::{
    basics_eq, clone_opt_string, normalized_valid_ids, parse_whitelist, AssetStatus, AssetsError,
    AssetsInfo, Basics, BasicsView,
};
use crate::update::{mask_from_paths, merge_vehicle, merged_vehicle};
use vstd::prelude::*;
use vstd::string::StringExecFns;

verus! {

/// A struct representing an aircraft.
#[derive(Clone, Debug, PartialEq)]
pub struct Aircraft {
    /// Common information for an asset.
    pub basics: Basics,
    /// The aircraft's manufacturer.
    pub manufacturer: String,
    /// The aircraft's model.
    pub model: String,
    /// The aircraft's serial number.
    pub serial_number: String,
    /// The aircraft's registration number (the N number in the US).
    pub registration_number: String,
    /// Optional additional description of the aircraft.
    pub description: Option<String>,
    /// The maximum payload in kilograms, as a raw bit pattern.
    pub max_payload_kg: u64,
    /// The maximum range in kilometres, as a raw bit pattern.
    pub max_range_km: u64,
    /// The date of the aircraft's last maintenance.
    pub last_maintenance: Option<Timestamp>,
    /// The date of the aircraft's next planned maintenance.
    pub next_maintenance: Option<Timestamp>,
    /// The hangar where the aircraft is stored.
    pub hangar_id: Option<String>,
}

/// The mathematical value of an aircraft.
#[verifier::ext_equal]
pub ghost struct AircraftView {
    /// Common information for an asset.
    pub basics: BasicsView,
    /// The aircraft's manufacturer.
    pub manufacturer: Seq<char>,
    /// The aircraft's model.
    pub model: Seq<char>,
    /// The aircraft's serial number.
    pub serial_number: Seq<char>,
    /// The aircraft's registration number.
    pub registration_number: Seq<char>,
    /// Optional additional description.
    pub description: Option<Seq<char>>,
    /// The maximum payload, as a raw bit pattern.
    pub max_payload_kg: u64,
    /// The maximum range, as a raw bit pattern.
    pub max_range_km: u64,
    /// The date of the last maintenance.
    pub last_maintenance: Option<Timestamp>,
    /// The date of the next planned maintenance.
    pub next_maintenance: Option<Timestamp>,
    /// The hangar where the aircraft is stored.
    pub hangar_id: Option<Seq<char>>,
}

impl View for Aircraft {
    type V = AircraftView;

    open spec fn view(&self) -> AircraftView {
        AircraftView {
            basics: self.basics@,
            manufacturer: self.manufacturer@,
            model: self.model@,
            serial_number: self.serial_number@,
            registration_number: self.registration_number@,
            description: self.description.deep_view(),
            max_payload_kg: self.max_payload_kg,
            max_range_km: self.max_range_km,
            last_maintenance: self.last_maintenance,
            next_maintenance: self.next_maintenance,
            hangar_id: self.hangar_id.deep_view(),
        }
    }
}

impl DeepView for Aircraft {
    type V = AircraftView;

    open spec fn deep_view(&self) -> AircraftView {
        self@
    }
}

/// The aircraft a backend vehicle record translates to, when the record
/// carries everything the REST schema requires; `None` when the data or
/// a required timestamp is missing, which is a backend contract
/// violation and never defaulted.
pub open spec fn aircraft_of(object: VehicleObjectView) -> Option<AircraftView> {
    match object.data {
        Option::None => Option::None,
        Option::Some(d) => {
            if d.created_at is None {
                Option::None
            } else if d.updated_at is None {
                Option::None
            } else {
                Option::Some(
                    AircraftView {
                        basics: BasicsView {
                            id: object.id,
                            name: Option::None,
                            group_id: d.asset_group_id,
                            created_at: d.created_at.unwrap(),
                            updated_at: d.updated_at.unwrap(),
                            whitelist: Seq::empty(),
                            status: AssetStatus::Available,
                        },
                        manufacturer: "Arrow"@,
                        model: d.vehicle_model_id,
                        serial_number: d.serial_number,
                        registration_number: d.registration_number,
                        description: d.description,
                        max_payload_kg: 0,
                        max_range_km: 0,
                        last_maintenance: d.last_maintenance,
                        next_maintenance: d.next_maintenance,
                        hangar_id: d.hangar_id,
                    },
                )
            }
        },
    }
}

impl Aircraft {
    /// Get the aircraft's name. If the aircraft has none, it is
    /// `manufacturer model registration_number`.
    pub fn full_name(&self) -> (r: String)
        ensures
            r@ == self.name_spec(),
    {
        match &self.basics.name {
            Some(name) => name.clone(),
            None => {
                let mut s = self.manufacturer.clone();
                s.append(" ");
                s.append(self.model.as_str());
                s.append(" ");
                s.append(self.registration_number.as_str());
                s
            },
        }
    }

    /// Translate a backend vehicle record into an aircraft. A record
    /// without data or without its bookkeeping timestamps fails closed.
    pub fn from_object(object: &VehicleObject) -> (r: Result<Aircraft, String>)
        ensures
            r is Ok <==> aircraft_of(object@) is Some,
            r matches Ok(a) ==> Some(a@) == aircraft_of(object@),
            object@.data is None ==> (r matches Err(e) && e@ == "(try_from) vehicle data is missing"@),
            (object@.data matches Some(d) && d.created_at is None) ==> (r matches Err(e) && e@
                == "(try_from) created_at field empty but expected."@),
            (object@.data matches Some(d) && d.created_at is Some && d.updated_at is None) ==> (
            r matches Err(e) && e@ == "(try_from) updated_at field empty but expected."@),
    {
        let data = match &object.data {
            Some(data) => data,
            None => {
                return Err("(try_from) vehicle data is missing".to_owned());
            },
        };
        let created_at = match data.created_at {
            Some(t) => t,
            None => {
                return Err("(try_from) created_at field empty but expected.".to_owned());
            },
        };
        let updated_at = match data.updated_at {
            Some(t) => t,
            None => {
                return Err("(try_from) updated_at field empty but expected.".to_owned());
            },
        };
        let a = Aircraft {
            basics: Basics {
                id: object.id.clone(),
                group_id: clone_opt_string(&data.asset_group_id),
                name: None,
                created_at,
                updated_at,
                whitelist: Vec::new(),
                status: AssetStatus::Available,
            },
            manufacturer: "Arrow".to_owned(),
            model: data.vehicle_model_id.clone(),
            serial_number: data.serial_number.clone(),
            registration_number: data.registration_number.clone(),
            description: clone_opt_string(&data.description),
            max_payload_kg: 0,
            max_range_km: 0,
            last_maintenance: data.last_maintenance,
            next_maintenance: data.next_maintenance,
            hangar_id: clone_opt_string(&data.hangar_id),
        };
        proof {
            assert(Some(a@) =~= aircraft_of(object@));
        }
        Ok(a)
    }
}

impl AssetsInfo for Aircraft {
    open spec fn basics_spec(&self) -> Basics {
        self.basics
    }

    open spec fn name_spec(&self) -> Seq<char> {
        match self.basics.name {
            Some(name) => name@,
            None => self.manufacturer@ + " "@ + self.model@ + " "@ + self.registration_number@,
        }
    }

    fn basics(&self) -> (r: Basics)
        ensures
            basics_eq(r, self.basics_spec()),
    {
        Basics {
            id: self.basics.id.clone(),
            name: clone_opt_string(&self.basics.name),
            group_id: clone_opt_string(&self.basics.group_id),
            created_at: self.basics.created_at,
            updated_at: self.basics.updated_at,
            whitelist: crate::structs::clone_string_vec(&self.basics.whitelist),
            status: self.basics.status,
        }
    }

    fn id(&self) -> (r: Result<AssetId, AssetsError>) {
        match AssetId::parse(self.basics.id.as_str()) {
            Some(id) => Ok(id),
            None => Err(AssetsError::InvalidUuid),
        }
    }

    fn group_id(&self) -> (r: Result<Option<AssetId>, AssetsError>) {
        match &self.basics.group_id {
            None => Ok(None),
            Some(g) => match AssetId::parse(g.as_str()) {
                Some(id) => Ok(Some(id)),
                None => Err(AssetsError::InvalidUuid),
            },
        }
    }

    fn name(&self) -> (r: String) {
        self.full_name()
    }

    fn created_at(&self) -> (r: Timestamp) {
        self.basics.created_at
    }

    fn updated_at(&self) -> (r: Timestamp) {
        self.basics.updated_at
    }

    fn is_grouped(&self) -> (r: bool) {
        self.basics.group_id.is_some()
    }

    fn is_public(&self) -> (r: bool) {
        self.basics.whitelist.len() == 0
    }

    fn whitelist(&self) -> (r: Vec<AssetId>) {
        parse_whitelist(&self.basics.whitelist)
    }

    fn status(&self) -> (r: AssetStatus) {
        self.basics.status
    }
}

/// The aircraft a list of backend records yields, in
/// order; records that fail translation are dropped so that one bad
/// record does not fail an entire listing.
pub open spec fn translated_aircraft(objs: Seq<VehicleObjectView>) -> Seq<AircraftView>
    decreases objs.len(),
{
    if objs.len() == 0 {
        Seq::empty()
    } else {
        translated_aircraft(objs.drop_last()) + (match aircraft_of(objs.last()) {
            Option::Some(a) => seq![a],
            Option::None => Seq::empty(),
        })
    }
}

/// The stored record an update starts from. A backend record without
/// data is malformed, which is a server error, not a not-found.
pub fn data_or_server_error(object: VehicleObject) -> (r: Result<VehicleData, StatusCode>)
    ensures
        object.data matches Some(d) ==> r == Ok::<VehicleData, StatusCode>(d),
        object.data is None ==> r == Err::<VehicleData, StatusCode>(
            StatusCode::InternalServerError,
        ),
{
    match object.data {
        Some(d) => Ok(d),
        None => Err(StatusCode::InternalServerError),
    }
}

/// Validate an aircraft update and produce what travels to the backend:
/// the record merged by the partial-update engine, under the client's
/// mask. A payload whose id is not canonical UUID text is a client
/// error and the backend is never contacted.
pub fn update_aircraft(payload: &UpdateAircraftPayload, current: VehicleData) -> (r: Result<
    VehicleUpdateObject,
    StatusCode,
>)
    ensures
        r is Ok <==> is_canonical_uuid(payload.id@),
        r matches Ok(u) ==> {
            &&& u.id@ == normalize_uuid(payload.id@)
            &&& u.data == Some(merged_vehicle(*payload, current))
            &&& u.mask matches Some(m) && m.paths@ == payload.mask@
        },
        !is_canonical_uuid(payload.id@) ==> r == Err::<VehicleUpdateObject, StatusCode>(
            StatusCode::BadRequest,
        ),
{
    let id = match crate::ids::validate_id(payload.id.as_str()) {
        Ok(id) => id,
        Err(e) => {
            return Err(e);
        },
    };
    Ok(
        VehicleUpdateObject {
            id,
            data: Some(merge_vehicle(payload, current)),
            mask: Some(mask_from_paths(&payload.mask)),
        },
    )
}

/// The outcome of an aircraft registration, from the backend's answer
/// to the insert: the new record's id, or a server error when the
/// backend returned no record.
pub fn register_response(resp: VehicleResponse) -> (r: Result<String, StatusCode>)
    ensures
        resp.object matches Some(o) ==> r == Ok::<String, StatusCode>(o.id),
        resp.object is None ==> r == Err::<String, StatusCode>(StatusCode::InternalServerError),
{
    match resp.object {
        Some(o) => Ok(o.id),
        None => Err(StatusCode::InternalServerError),
    }
}

/// The outcome of an aircraft lookup, from the record the backend
/// returned: the translated aircraft, or a server error when the record
/// violates the REST schema's requirements. Not-found is decided by the
/// backend's answer before this step.
pub fn get_by_id_response(object: &VehicleObject) -> (r: Result<Aircraft, StatusCode>)
    ensures
        r is Ok <==> aircraft_of(object@) is Some,
        r matches Ok(a) ==> Some(a@) == aircraft_of(object@),
        aircraft_of(object@) is None ==> r == Err::<Aircraft, StatusCode>(
            StatusCode::InternalServerError,
        ),
{
    match Aircraft::from_object(object) {
        Ok(a) => Ok(a),
        Err(_) => Err(StatusCode::InternalServerError),
    }
}

/// Translate a listing of backend records, dropping the records that
/// fail translation.
pub fn list_response(objects: &Vec<VehicleObject>) -> (r: Vec<Aircraft>)
    ensures
        r.deep_view() == translated_aircraft(objects.deep_view()),
{
    let mut r: Vec<Aircraft> = Vec::new();
    let n = objects.len();
    let mut i: usize = 0;
    while i < n
        invariant
            n == objects.len(),
            0 <= i <= n,
            r.deep_view() =~= translated_aircraft(objects.deep_view().subrange(0, i as int)),
        decreases n - i,
    {
        proof {
            assert(objects.deep_view().subrange(0, i + 1 as int).drop_last() =~= objects
                .deep_view().subrange(0, i as int));
            assert(objects.deep_view().subrange(0, i + 1 as int).last() == objects@[i as int]@);
        }
        match Aircraft::from_object(&objects[i]) {
            Ok(a) => {
                r.push(a);
            },
            Err(_) => {},
        }
        proof {
            assert(r.deep_view() =~= translated_aircraft(
                objects.deep_view().subrange(0, i + 1 as int),
            ));
        }
        i = i + 1;
    }
    proof {
        assert(objects.deep_view().subrange(0, n as int) =~= objects.deep_view());
    }
    r
}

} // verus!
