//! The vertiport resource adapter: the REST representation of a
//! vertiport (a vertical airport, which may own vertipads), how
//! backend records become vertiports, and the pure steps of the
//! vertiport handlers.

use crate::ids::{is_canonical_uuid, normalize_uuid, AssetId};
use crate::rest_types::UpdateVertiportPayload;
use crate::status::StatusCode;
use crate::storage::{
    GeoPolygon, Timestamp, VertiportData, VertiportObject, VertiportObjectView, VertiportResponse,
    VertiportUpdateObject,
};
use crate::structs::{
    basics_eq, clone_opt_string, clone_string_vec, parse_whitelist, AssetStatus, AssetsError,
    AssetsInfo, Basics, BasicsView,
};
use crate::update::{mask_from_paths, merge_vertiport, merged_vertiport};
use vstd::prelude::*;

verus! {

/// A struct representing a vertiport (a vertical airport).
#[derive(Clone, Debug, PartialEq)]
pub struct Vertiport {
    /// Attributes that are common to all assets.
    pub basics: Basics,
    /// A description of the vertiport.
    pub description: String,
    /// The geographic area of the vertiport.
    pub geo_location: GeoPolygon,
    /// The schedule of the vertiport.
    pub schedule: Option<String>,
}

/// The mathematical value of a vertiport.
#[verifier::ext_equal]
pub ghost struct VertiportView {
    /// Attributes that are common to all assets.
    pub basics: BasicsView,
    /// A description of the vertiport.
    pub description: Seq<char>,
    /// The geographic area of the vertiport.
    pub geo_location: crate::storage::GeoPolygonView,
    /// The schedule of the vertiport.
    pub schedule: Option<Seq<char>>,
}

impl View for Vertiport {
    type V = VertiportView;

    open spec fn view(&self) -> VertiportView {
        VertiportView {
            basics: self.basics@,
            description: self.description@,
            geo_location: self.geo_location@,
            schedule: self.schedule.deep_view(),
        }
    }
}

impl DeepView for Vertiport {
    type V = VertiportView;

    open spec fn deep_view(&self) -> VertiportView {
        self@
    }
}

/// The vertiport a backend record translates to, when the record
/// carries everything the REST schema requires; `None` when the data, a
/// bookkeeping timestamp or the area is missing.
pub open spec fn vertiport_of(object: VertiportObjectView) -> Option<VertiportView> {
    match object.data {
        Option::None => Option::None,
        Option::Some(d) => {
            if d.created_at is None {
                Option::None
            } else if d.updated_at is None {
                Option::None
            } else if d.geo_location is None {
                Option::None
            } else {
                Option::Some(
                    VertiportView {
                        basics: BasicsView {
                            id: object.id,
                            group_id: Option::None,
                            name: Option::Some(d.name),
                            created_at: d.created_at.unwrap(),
                            updated_at: d.updated_at.unwrap(),
                            whitelist: Seq::empty(),
                            status: AssetStatus::Available,
                        },
                        description: d.description,
                        geo_location: d.geo_location.unwrap(),
                        schedule: d.schedule,
                    },
                )
            }
        },
    }
}

impl Vertiport {
    /// Get the vertiport's name, or a fixed fallback when it has none.
    pub fn full_name(&self) -> (r: String)
        ensures
            r@ == self.name_spec(),
    {
        match &self.basics.name {
            Some(name) => name.clone(),
            None => "Unnamed Vertiport".to_owned(),
        }
    }

    /// Translate a backend vertiport record into a vertiport. A record
    /// without data, bookkeeping timestamps or area fails closed.
    pub fn from_object(object: &VertiportObject) -> (r: Result<Vertiport, String>)
        ensures
            r is Ok <==> vertiport_of(object@) is Some,
            r matches Ok(v) ==> Some(v@) == vertiport_of(object@),
            object@.data is None ==> (r matches Err(e) && e@ == "(try_from) vertiport data is missing"@),
            (object@.data matches Some(d) && d.created_at is None) ==> (r matches Err(e) && e@
                == "(try_from) created_at field empty but expected."@),
            (object@.data matches Some(d) && d.created_at is Some && d.updated_at is None) ==> (
            r matches Err(e) && e@ == "(try_from) updated_at field empty but expected."@),
            (object@.data matches Some(d) && d.created_at is Some && d.updated_at is Some
                && d.geo_location is None) ==> (r matches Err(e) && e@
                == "(try_from) geo_location empty but expected."@),
    {
        let data = match &object.data {
            Some(data) => data,
            None => {
                return Err("(try_from) vertiport data is missing".to_owned());
            },
        };
        let created_at = match data.created_at {
            Some(t) => t,
            None => {
                return Err("(try_from) created_at field empty but expected.".to_owned());
            },
        };
        let updated_at = match data.updated_at {
            Some(t) => t,
            None => {
                return Err("(try_from) updated_at field empty but expected.".to_owned());
            },
        };
        let geo_location = match &data.geo_location {
            Some(g) => clone_polygon(g),
            None => {
                return Err("(try_from) geo_location empty but expected.".to_owned());
            },
        };
        let v = Vertiport {
            basics: Basics {
                id: object.id.clone(),
                group_id: None,
                name: Some(data.name.clone()),
                created_at,
                updated_at,
                whitelist: Vec::new(),
                status: AssetStatus::Available,
            },
            description: data.description.clone(),
            geo_location,
            schedule: clone_opt_string(&data.schedule),
        };
        proof {
            assert(Some(v@) =~= vertiport_of(object@));
        }
        Ok(v)
    }
}

/// Copy a geographical line.
pub fn clone_line(l: &crate::storage::GeoLineString) -> (r: crate::storage::GeoLineString)
    ensures
        r@ == l@,
{
    let mut points: Vec<crate::storage::GeoPoint> = Vec::new();
    let n = l.points.len();
    let mut i: usize = 0;
    while i < n
        invariant
            n == l.points.len(),
            0 <= i <= n,
            points@ =~= l.points@.subrange(0, i as int),
        decreases n - i,
    {
        points.push(l.points[i]);
        proof {
            assert(points@ =~= l.points@.subrange(0, i + 1 as int));
        }
        i = i + 1;
    }
    proof {
        assert(l.points@.subrange(0, n as int) =~= l.points@);
    }
    crate::storage::GeoLineString { points }
}

/// Copy a geographical area.
pub fn clone_polygon(p: &GeoPolygon) -> (r: GeoPolygon)
    ensures
        r@ == p@,
{
    let exterior = clone_line(&p.exterior);
    let mut interiors: Vec<crate::storage::GeoLineString> = Vec::new();
    let n = p.interiors.len();
    let mut i: usize = 0;
    while i < n
        invariant
            n == p.interiors.len(),
            0 <= i <= n,
            interiors@.len() == i,
            forall|j: int| 0 <= j < i ==> (#[trigger] interiors@[j])@ == p.interiors@[j]@,
        decreases n - i,
    {
        interiors.push(clone_line(&p.interiors[i]));
        i = i + 1;
    }
    let r = GeoPolygon { exterior, interiors };
    proof {
        assert(r@.interiors =~= p@.interiors);
        assert(r@ =~= p@);
    }
    r
}

impl AssetsInfo for Vertiport {
    open spec fn basics_spec(&self) -> Basics {
        self.basics
    }

    open spec fn name_spec(&self) -> Seq<char> {
        match self.basics.name {
            Some(name) => name@,
            None => "Unnamed Vertiport"@,
        }
    }

    fn basics(&self) -> (r: Basics)
        ensures
            basics_eq(r, self.basics_spec()),
    {
        Basics {
            id: self.basics.id.clone(),
            name: clone_opt_string(&self.basics.name),
            group_id: clone_opt_string(&self.basics.group_id),
            created_at: self.basics.created_at,
            updated_at: self.basics.updated_at,
            whitelist: clone_string_vec(&self.basics.whitelist),
            status: self.basics.status,
        }
    }

    fn id(&self) -> (r: Result<AssetId, AssetsError>) {
        match AssetId::parse(self.basics.id.as_str()) {
            Some(id) => Ok(id),
            None => Err(AssetsError::InvalidUuid),
        }
    }

    fn group_id(&self) -> (r: Result<Option<AssetId>, AssetsError>) {
        match &self.basics.group_id {
            None => Ok(None),
            Some(g) => match AssetId::parse(g.as_str()) {
                Some(id) => Ok(Some(id)),
                None => Err(AssetsError::InvalidUuid),
            },
        }
    }

    fn name(&self) -> (r: String) {
        self.full_name()
    }

    fn created_at(&self) -> (r: Timestamp) {
        self.basics.created_at
    }

    fn updated_at(&self) -> (r: Timestamp) {
        self.basics.updated_at
    }

    fn is_grouped(&self) -> (r: bool) {
        self.basics.group_id.is_some()
    }

    fn is_public(&self) -> (r: bool) {
        self.basics.whitelist.len() == 0
    }

    fn whitelist(&self) -> (r: Vec<AssetId>) {
        parse_whitelist(&self.basics.whitelist)
    }

    fn status(&self) -> (r: AssetStatus) {
        self.basics.status
    }
}

/// The vertiports a list of backend records yields, in
/// order; records that fail translation are dropped.
pub open spec fn translated_vertiports(objs: Seq<VertiportObjectView>) -> Seq<VertiportView>
    decreases objs.len(),
{
    if objs.len() == 0 {
        Seq::empty()
    } else {
        translated_vertiports(objs.drop_last()) + (match vertiport_of(objs.last()) {
            Option::Some(v) => seq![v],
            Option::None => Seq::empty(),
        })
    }
}

/// The stored record an update starts from. A backend record without
/// data is malformed, which is a server error, not a not-found.
pub fn data_or_server_error(object: VertiportObject) -> (r: Result<VertiportData, StatusCode>)
    ensures
        object.data matches Some(d) ==> r == Ok::<VertiportData, StatusCode>(d),
        object.data is None ==> r == Err::<VertiportData, StatusCode>(
            StatusCode::InternalServerError,
        ),
{
    match object.data {
        Some(d) => Ok(d),
        None => Err(StatusCode::InternalServerError),
    }
}

/// Validate a vertiport update and produce what travels to the backend:
/// the record merged by the partial-update engine, under the client's
/// mask. A payload whose id is not canonical UUID text is a client
/// error and the backend is never contacted.
pub fn update_vertiport(payload: UpdateVertiportPayload, current: VertiportData) -> (r: Result<
    VertiportUpdateObject,
    StatusCode,
>)
    ensures
        r is Ok <==> is_canonical_uuid(payload.id@),
        r matches Ok(u) ==> {
            &&& u.id@ == normalize_uuid(payload.id@)
            &&& u.data == Some(merged_vertiport(payload, current))
            &&& u.mask matches Some(m) && m.paths@ == payload.mask@
        },
        !is_canonical_uuid(payload.id@) ==> r == Err::<VertiportUpdateObject, StatusCode>(
            StatusCode::BadRequest,
        ),
{
    let id = match crate::ids::validate_id(payload.id.as_str()) {
        Ok(id) => id,
        Err(e) => {
            return Err(e);
        },
    };
    let mask = mask_from_paths(&payload.mask);
    Ok(
        VertiportUpdateObject {
            id,
            data: Some(merge_vertiport(payload, current)),
            mask: Some(mask),
        },
    )
}

/// The outcome of a vertiport registration, from the backend's answer
/// to the insert.
pub fn register_response(resp: VertiportResponse) -> (r: Result<String, StatusCode>)
    ensures
        resp.object matches Some(o) ==> r == Ok::<String, StatusCode>(o.id),
        resp.object is None ==> r == Err::<String, StatusCode>(StatusCode::InternalServerError),
{
    match resp.object {
        Some(o) => Ok(o.id),
        None => Err(StatusCode::InternalServerError),
    }
}

/// The outcome of a vertiport lookup, from the record the backend
/// returned.
pub fn get_by_id_response(object: &VertiportObject) -> (r: Result<Vertiport, StatusCode>)
    ensures
        r is Ok <==> vertiport_of(object@) is Some,
        r matches Ok(v) ==> Some(v@) == vertiport_of(object@),
        vertiport_of(object@) is None ==> r == Err::<Vertiport, StatusCode>(
            StatusCode::InternalServerError,
        ),
{
    match Vertiport::from_object(object) {
        Ok(v) => Ok(v),
        Err(_) => Err(StatusCode::InternalServerError),
    }
}

/// Translate a listing of backend records, dropping the records that
/// fail translation.
pub fn list_response(objects: &Vec<VertiportObject>) -> (r: Vec<Vertiport>)
    ensures
        r.deep_view() == translated_vertiports(objects.deep_view()),
{
    let mut r: Vec<Vertiport> = Vec::new();
    let n = objects.len();
    let mut i: usize = 0;
    while i < n
        invariant
            n == objects.len(),
            0 <= i <= n,
            r.deep_view() =~= translated_vertiports(objects.deep_view().subrange(0, i as int)),
        decreases n - i,
    {
        proof {
            assert(objects.deep_view().subrange(0, i + 1 as int).drop_last() =~= objects
                .deep_view().subrange(0, i as int));
            assert(objects.deep_view().subrange(0, i + 1 as int).last() == objects@[i as int]@);
        }
        match Vertiport::from_object(&objects[i]) {
            Ok(v) => {
                r.push(v);
            },
            Err(_) => {},
        }
        proof {
            assert(r.deep_view() =~= translated_vertiports(
                objects.deep_view().subrange(0, i + 1 as int),
            ));
        }
        i = i + 1;
    }
    proof {
        assert(objects.deep_view().subrange(0, n as int) =~= objects.deep_view());
    }
    r
}

} // verus!
