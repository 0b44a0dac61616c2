//! Attributes shared by the groupable assets, and the one behavioural
//! contract (`AssetsInfo`) that every concrete asset type implements.

use crate::ids::{is_canonical_uuid, normalize_uuid, AssetId};
use crate::storage::Timestamp;
use vstd::prelude::*;

verus! {

/// Status of an asset. Transitions are unconstrained: the status is set
/// directly by the client, not derived.
#[derive(Clone, Copy, Debug, PartialEq, Eq, Hash, Structural)]
pub enum AssetStatus {
    /// The asset is available for use.
    Available,
    /// The asset is unavailable for use.
    Unavailable,
    /// The asset is only available for emergencies.
    Emergency,
}

/// Attributes that are common to all assets.
#[derive(Clone, Debug, PartialEq, Eq)]
pub struct Basics {
    /// UUID of the asset.
    pub id: String,
    /// The name of the asset.
    pub name: Option<String>,
    /// The UUID of an asset group, if available.
    pub group_id: Option<String>,
    /// Created-at time.
    pub created_at: Timestamp,
    /// Updated-at time.
    pub updated_at: Timestamp,
    /// A list of UUIDs of operators. If the list is empty, the asset is
    /// available to everyone; otherwise only to the listed clients.
    pub whitelist: Vec<String>,
    /// The status of the asset.
    pub status: AssetStatus,
}

/// The mathematical value of an asset's shared attributes.
#[verifier::ext_equal]
pub ghost struct BasicsView {
    /// UUID of the asset.
    pub id: Seq<char>,
    /// The name of the asset.
    pub name: Option<Seq<char>>,
    /// The UUID of an asset group, if available.
    pub group_id: Option<Seq<char>>,
    /// Created-at time.
    pub created_at: Timestamp,
    /// Updated-at time.
    pub updated_at: Timestamp,
    /// The access whitelist.
    pub whitelist: Seq<Seq<char>>,
    /// The status of the asset.
    pub status: AssetStatus,
}

impl View for Basics {
    type V = BasicsView;

    open spec fn view(&self) -> BasicsView {
        BasicsView {
            id: self.id@,
            name: self.name.deep_view(),
            group_id: self.group_id.deep_view(),
            created_at: self.created_at,
            updated_at: self.updated_at,
            whitelist: self.whitelist.deep_view(),
            status: self.status,
        }
    }
}

impl DeepView for Basics {
    type V = BasicsView;

    open spec fn deep_view(&self) -> BasicsView {
        self@
    }
}

/// Field-wise equality of two `Basics` values.
pub open spec fn basics_eq(a: Basics, b: Basics) -> bool {
    &&& a.id == b.id
    &&& a.name == b.name
    &&& a.group_id == b.group_id
    &&& a.created_at == b.created_at
    &&& a.updated_at == b.updated_at
    &&& a.whitelist@ == b.whitelist@
    &&& a.status == b.status
}

/// What can go wrong when reading an asset's attributes.
#[derive(Debug, Copy, Clone, PartialEq, Eq, Structural)]
pub enum AssetsError {
    /// An id field does not hold canonical UUID text.
    InvalidUuid,
}

impl AssetsError {
    /// A human-readable description of the error.
    pub fn to_string(&self) -> (r: String)
        ensures
            r@ == "Invalid UUID"@,
    {
        "Invalid UUID".to_owned()
    }
}

/// The ids of a list that hold canonical UUID text, normalized, in
/// order; the rest are dropped.
pub open spec fn normalized_valid_ids(ids: Seq<Seq<char>>) -> Seq<Seq<char>>
    decreases ids.len(),
{
    if ids.len() == 0 {
        Seq::empty()
    } else {
        normalized_valid_ids(ids.drop_last()) + (if is_canonical_uuid(ids.last()) {
            seq![normalize_uuid(ids.last())]
        } else {
            Seq::empty()
        })
    }
}

/// Copy an optional string.
pub fn clone_opt_string(o: &Option<String>) -> (r: Option<String>)
    ensures
        r == *o,
{
    match o {
        Some(s) => Some(s.clone()),
        None => None,
    }
}

/// Copy a list of strings.
pub fn clone_string_vec(v: &Vec<String>) -> (r: Vec<String>)
    ensures
        r@ == v@,
{
    let mut r: Vec<String> = Vec::new();
    let n = v.len();
    let mut i: usize = 0;
    while i < n
        invariant
            n == v.len(),
            0 <= i <= n,
            r@ =~= v@.subrange(0, i as int),
        decreases n - i,
    {
        r.push(v[i].clone());
        proof {
            assert(r@ =~= v@.subrange(0, i + 1 as int));
        }
        i = i + 1;
    }
    proof {
        assert(v@.subrange(0, n as int) =~= v@);
    }
    r
}

/// Get information about an asset. Implemented by all asset types; the
/// attributes come from the asset's `Basics`, and the name falls back
/// to a type-specific full name.
pub trait AssetsInfo: Sized {
    /// The asset's shared attributes, as the contracts see them.
    spec fn basics_spec(&self) -> Basics;

    /// The asset's display name, as the contracts see it.
    spec fn name_spec(&self) -> Seq<char>;

    /// Get the asset's basic information.
    fn basics(&self) -> (r: Basics)
        ensures
            basics_eq(r, self.basics_spec()),
    ;

    /// Get the asset's ID.
    fn id(&self) -> (r: Result<AssetId, AssetsError>)
        ensures
            r is Ok <==> is_canonical_uuid(self.basics_spec().id@),
            r matches Ok(id) ==> id.wf() && id@ == normalize_uuid(self.basics_spec().id@),
            r is Err ==> r == Err::<AssetId, AssetsError>(AssetsError::InvalidUuid),
    ;

    /// Get the asset's group ID. An ungrouped asset yields `None`; a
    /// malformed group id is an error.
    fn group_id(&self) -> (r: Result<Option<AssetId>, AssetsError>)
        ensures
            self.basics_spec().group_id is None ==> r == Ok::<Option<AssetId>, AssetsError>(
                None,
            ),
            r matches Ok(Some(id)) ==> id.wf(),
            self.basics_spec().group_id matches Some(g) ==> {
                &&& r is Ok <==> is_canonical_uuid(g@)
                &&& (r matches Ok(o) ==> o matches Some(id) && id@ == normalize_uuid(g@))
                &&& (r is Err ==> r == Err::<Option<AssetId>, AssetsError>(
                    AssetsError::InvalidUuid,
                ))
            },
    ;

    /// Get the asset's name.
    fn name(&self) -> (r: String)
        ensures
            r@ == self.name_spec(),
    ;

    /// Get the asset's creation time.
    fn created_at(&self) -> (r: Timestamp)
        ensures
            r == self.basics_spec().created_at,
    ;

    /// Get the asset's last update time.
    fn updated_at(&self) -> (r: Timestamp)
        ensures
            r == self.basics_spec().updated_at,
    ;

    /// Check if the asset is grouped.
    fn is_grouped(&self) -> (r: bool)
        ensures
            r == (self.basics_spec().group_id is Some),
    ;

    /// Check if the asset is open to the public.
    fn is_public(&self) -> (r: bool)
        ensures
            r == (self.basics_spec().whitelist@.len() == 0),
    ;

    /// Get the list of clients that have access to the asset: the
    /// whitelist entries that hold well-formed ids.
    fn whitelist(&self) -> (r: Vec<AssetId>)
        ensures
            r.deep_view() == normalized_valid_ids(self.basics_spec().whitelist.deep_view()),
            forall|i: int| 0 <= i < r.len() ==> (#[trigger] r[i]).wf(),
    ;

    /// Get the status of the asset.
    fn status(&self) -> (r: AssetStatus)
        ensures
            r == self.basics_spec().status,
    ;
}

/// Parse each entry of a whitelist, keeping the well-formed ids.
pub fn parse_whitelist(v: &Vec<String>) -> (r: Vec<AssetId>)
    ensures
        r.deep_view() == normalized_valid_ids(v.deep_view()),
        forall|i: int| 0 <= i < r.len() ==> (#[trigger] r[i]).wf(),
{
    let mut r: Vec<AssetId> = Vec::new();
    let n = v.len();
    let mut i: usize = 0;
    while i < n
        invariant
            n == v.len(),
            0 <= i <= n,
            r.deep_view() =~= normalized_valid_ids(v@.subrange(0, i as int).map_values(|s: String| s@)),
            forall|k: int| 0 <= k < r.len() ==> (#[trigger] r[k]).wf(),
        decreases n - i,
    {
        proof {
            assert(v@.subrange(0, i + 1 as int).map_values(|s: String| s@).drop_last() =~= v@
                .subrange(0, i as int).map_values(|s: String| s@));
        }
        match AssetId::parse(v[i].as_str()) {
            Some(id) => {
                r.push(id);
            },
            None => {},
        }
        proof {
            assert(r.deep_view() =~= normalized_valid_ids(
                v@.subrange(0, i + 1 as int).map_values(|s: String| s@),
            ));
        }
        i = i + 1;
    }
    proof {
        assert(v@.subrange(0, n as int) =~= v@);
        assert(v.deep_view() =~= v@.map_values(|s: String| s@));
    }
    r
}

} // verus!
