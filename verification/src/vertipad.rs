//! The vertipad resource adapter: the REST representation of a
//! vertipad (a vertical landing pad, usually belonging to a vertiport),
//! how backend records become vertipads, and the pure steps of the
//! vertipad handlers.

use crate::ids::{is_canonical_uuid, normalize_uuid, AssetId};
use crate::rest_types::UpdateVertipadPayload;
use crate::status::StatusCode;
use crate::storage::{
    GeoPoint, Timestamp, VertipadData, VertipadObject, VertipadObjectView, VertipadResponse,
    VertipadUpdateObject,
};
use crate::structs::{
    basics_eq, clone_opt_string, clone_string_vec, parse_whitelist, AssetStatus, AssetsError,
    AssetsInfo, Basics, BasicsView,
};
use crate::update::{mask_from_paths, merge_vertipad, merged_vertipad};
use vstd::prelude::*;

verus! {

/// A struct representing a vertipad (a vertical landing pad).
#[derive(Clone, Debug, PartialEq)]
pub struct Vertipad {
    /// Attributes that are common to all assets.
    pub basics: Basics,
    /// The vertiport the vertipad belongs to.
    pub vertiport_id: String,
    /// Whether the vertipad is enabled.
    pub enabled: bool,
    /// Whether the vertipad is occupied.
    pub occupied: bool,
    /// The geographical location of the vertipad.
    pub geo_location: GeoPoint,
    /// The schedule of the vertipad.
    pub schedule: Option<String>,
}

/// The mathematical value of a vertipad.
#[verifier::ext_equal]
pub ghost struct VertipadView {
    /// Attributes that are common to all assets.
    pub basics: BasicsView,
    /// The vertiport the vertipad belongs to.
    pub vertiport_id: Seq<char>,
    /// Whether the vertipad is enabled.
    pub enabled: bool,
    /// Whether the vertipad is occupied.
    pub occupied: bool,
    /// The geographical location of the vertipad.
    pub geo_location: GeoPoint,
    /// The schedule of the vertipad.
    pub schedule: Option<Seq<char>>,
}

impl View for Vertipad {
    type V = VertipadView;

    open spec fn view(&self) -> VertipadView {
        VertipadView {
            basics: self.basics@,
            vertiport_id: self.vertiport_id@,
            enabled: self.enabled,
            occupied: self.occupied,
            geo_location: self.geo_location,
            schedule: self.schedule.deep_view(),
        }
    }
}

impl DeepView for Vertipad {
    type V = VertipadView;

    open spec fn deep_view(&self) -> VertipadView {
        self@
    }
}

/// The vertipad a backend record translates to, when the record carries
/// everything the REST schema requires; `None` when the data, a
/// bookkeeping timestamp or the location is missing.
pub open spec fn vertipad_of(object: VertipadObjectView) -> Option<VertipadView> {
    match object.data {
        Option::None => Option::None,
        Option::Some(d) => {
            if d.created_at is None {
                Option::None
            } else if d.updated_at is None {
                Option::None
            } else if d.geo_location is None {
                Option::None
            } else {
                Option::Some(
                    VertipadView {
                        basics: BasicsView {
                            id: object.id,
                            group_id: Option::None,
                            name: Option::Some(d.name),
                            created_at: d.created_at.unwrap(),
                            updated_at: d.updated_at.unwrap(),
                            whitelist: Seq::empty(),
                            status: AssetStatus::Available,
                        },
                        geo_location: d.geo_location.unwrap(),
                        vertiport_id: d.vertiport_id,
                        enabled: d.enabled,
                        occupied: d.occupied,
                        schedule: d.schedule,
                    },
                )
            }
        },
    }
}

impl Vertipad {
    /// Get the vertipad's name, or a fixed fallback when it has none.
    pub fn full_name(&self) -> (r: String)
        ensures
            r@ == self.name_spec(),
    {
        match &self.basics.name {
            Some(name) => name.clone(),
            None => "Unnamed Vertipad".to_owned(),
        }
    }

    /// Translate a backend vertipad record into a vertipad. A record
    /// without data, bookkeeping timestamps or location fails closed.
    pub fn from_object(object: &VertipadObject) -> (r: Result<Vertipad, String>)
        ensures
            r is Ok <==> vertipad_of(object@) is Some,
            r matches Ok(v) ==> Some(v@) == vertipad_of(object@),
            object@.data is None ==> (r matches Err(e) && e@ == "(try_from) vertipad data is missing"@),
            (object@.data matches Some(d) && d.created_at is None) ==> (r matches Err(e) && e@
                == "(try_from) created_at field empty but expected."@),
            (object@.data matches Some(d) && d.created_at is Some && d.updated_at is None) ==> (
            r matches Err(e) && e@ == "(try_from) updated_at field empty but expected."@),
            (object@.data matches Some(d) && d.created_at is Some && d.updated_at is Some
                && d.geo_location is None) ==> (r matches Err(e) && e@
                == "(try_from) geo_location empty but expected."@),
    {
        let data = match &object.data {
            Some(data) => data,
            None => {
                return Err("(try_from) vertipad data is missing".to_owned());
            },
        };
        let created_at = match data.created_at {
            Some(t) => t,
            None => {
                return Err("(try_from) created_at field empty but expected.".to_owned());
            },
        };
        let updated_at = match data.updated_at {
            Some(t) => t,
            None => {
                return Err("(try_from) updated_at field empty but expected.".to_owned());
            },
        };
        let geo_location = match data.geo_location {
            Some(g) => g,
            None => {
                return Err("(try_from) geo_location empty but expected.".to_owned());
            },
        };
        let v = Vertipad {
            basics: Basics {
                id: object.id.clone(),
                group_id: None,
                name: Some(data.name.clone()),
                created_at,
                updated_at,
                whitelist: Vec::new(),
                status: AssetStatus::Available,
            },
            geo_location,
            vertiport_id: data.vertiport_id.clone(),
            enabled: data.enabled,
            occupied: data.occupied,
            schedule: clone_opt_string(&data.schedule),
        };
        proof {
            assert(Some(v@) =~= vertipad_of(object@));
        }
        Ok(v)
    }
}

impl AssetsInfo for Vertipad {
    open spec fn basics_spec(&self) -> Basics {
        self.basics
    }

    open spec fn name_spec(&self) -> Seq<char> {
        match self.basics.name {
            Some(name) => name@,
            None => "Unnamed Vertipad"@,
        }
    }

    fn basics(&self) -> (r: Basics)
        ensures
            basics_eq(r, self.basics_spec()),
    {
        Basics {
            id: self.basics.id.clone(),
            name: clone_opt_string(&self.basics.name),
            group_id: clone_opt_string(&self.basics.group_id),
            created_at: self.basics.created_at,
            updated_at: self.basics.updated_at,
            whitelist: clone_string_vec(&self.basics.whitelist),
            status: self.basics.status,
        }
    }

    fn id(&self) -> (r: Result<AssetId, AssetsError>) {
        match AssetId::parse(self.basics.id.as_str()) {
            Some(id) => Ok(id),
            None => Err(AssetsError::InvalidUuid),
        }
    }

    fn group_id(&self) -> (r: Result<Option<AssetId>, AssetsError>) {
        match &self.basics.group_id {
            None => Ok(None),
            Some(g) => match AssetId::parse(g.as_str()) {
                Some(id) => Ok(Some(id)),
                None => Err(AssetsError::InvalidUuid),
            },
        }
    }

    fn name(&self) -> (r: String) {
        self.full_name()
    }

    fn created_at(&self) -> (r: Timestamp) {
        self.basics.created_at
    }

    fn updated_at(&self) -> (r: Timestamp) {
        self.basics.updated_at
    }

    fn is_grouped(&self) -> (r: bool) {
        self.basics.group_id.is_some()
    }

    fn is_public(&self) -> (r: bool) {
        self.basics.whitelist.len() == 0
    }

    fn whitelist(&self) -> (r: Vec<AssetId>) {
        parse_whitelist(&self.basics.whitelist)
    }

    fn status(&self) -> (r: AssetStatus) {
        self.basics.status
    }
}

/// The vertipads a list of backend records yields, in
/// order; records that fail translation are dropped.
pub open spec fn translated_vertipads(objs: Seq<VertipadObjectView>) -> Seq<VertipadView>
    decreases objs.len(),
{
    if objs.len() == 0 {
        Seq::empty()
    } else {
        translated_vertipads(objs.drop_last()) + (match vertipad_of(objs.last()) {
            Option::Some(v) => seq![v],
            Option::None => Seq::empty(),
        })
    }
}

/// The stored record an update starts from. A backend record without
/// data is malformed, which is a server error, not a not-found.
pub fn data_or_server_error(object: VertipadObject) -> (r: Result<VertipadData, StatusCode>)
    ensures
        object.data matches Some(d) ==> r == Ok::<VertipadData, StatusCode>(d),
        object.data is None ==> r == Err::<VertipadData, StatusCode>(
            StatusCode::InternalServerError,
        ),
{
    match object.data {
        Some(d) => Ok(d),
        None => Err(StatusCode::InternalServerError),
    }
}

/// Validate a vertipad update and produce what travels to the backend:
/// the record merged by the partial-update engine, under the client's
/// mask. A payload whose id is not canonical UUID text is a client
/// error and the backend is never contacted.
pub fn update_vertipad(payload: &UpdateVertipadPayload, current: VertipadData) -> (r: Result<
    VertipadUpdateObject,
    StatusCode,
>)
    ensures
        r is Ok <==> is_canonical_uuid(payload.id@),
        r matches Ok(u) ==> {
            &&& u.id@ == normalize_uuid(payload.id@)
            &&& u.data == Some(merged_vertipad(*payload, current))
            &&& u.mask matches Some(m) && m.paths@ == payload.mask@
        },
        !is_canonical_uuid(payload.id@) ==> r == Err::<VertipadUpdateObject, StatusCode>(
            StatusCode::BadRequest,
        ),
{
    let id = match crate::ids::validate_id(payload.id.as_str()) {
        Ok(id) => id,
        Err(e) => {
            return Err(e);
        },
    };
    Ok(
        VertipadUpdateObject {
            id,
            data: Some(merge_vertipad(payload, current)),
            mask: Some(mask_from_paths(&payload.mask)),
        },
    )
}

/// The outcome of a vertipad registration, from the backend's answer to
/// the insert.
pub fn register_response(resp: VertipadResponse) -> (r: Result<String, StatusCode>)
    ensures
        resp.object matches Some(o) ==> r == Ok::<String, StatusCode>(o.id),
        resp.object is None ==> r == Err::<String, StatusCode>(StatusCode::InternalServerError),
{
    match resp.object {
        Some(o) => Ok(o.id),
        None => Err(StatusCode::InternalServerError),
    }
}

/// The outcome of a vertipad lookup, from the record the backend
/// returned.
pub fn get_by_id_response(object: &VertipadObject) -> (r: Result<Vertipad, StatusCode>)
    ensures
        r is Ok <==> vertipad_of(object@) is Some,
        r matches Ok(v) ==> Some(v@) == vertipad_of(object@),
        vertipad_of(object@) is None ==> r == Err::<Vertipad, StatusCode>(
            StatusCode::InternalServerError,
        ),
{
    match Vertipad::from_object(object) {
        Ok(v) => Ok(v),
        Err(_) => Err(StatusCode::InternalServerError),
    }
}

/// Translate a listing of backend records, dropping the records that
/// fail translation.
pub fn list_response(objects: &Vec<VertipadObject>) -> (r: Vec<Vertipad>)
    ensures
        r.deep_view() == translated_vertipads(objects.deep_view()),
{
    let mut r: Vec<Vertipad> = Vec::new();
    let n = objects.len();
    let mut i: usize = 0;
    while i < n
        invariant
            n == objects.len(),
            0 <= i <= n,
            r.deep_view() =~= translated_vertipads(objects.deep_view().subrange(0, i as int)),
        decreases n - i,
    {
        proof {
            assert(objects.deep_view().subrange(0, i + 1 as int).drop_last() =~= objects
                .deep_view().subrange(0, i as int));
            assert(objects.deep_view().subrange(0, i + 1 as int).last() == objects@[i as int]@);
        }
        match Vertipad::from_object(&objects[i]) {
            Ok(v) => {
                r.push(v);
            },
            Err(_) => {},
        }
        proof {
            assert(r.deep_view() =~= translated_vertipads(
                objects.deep_view().subrange(0, i + 1 as int),
            ));
        }
        i = i + 1;
    }
    proof {
        assert(objects.deep_view().subrange(0, n as int) =~= objects.deep_view());
    }
    r
}

} // verus!
