//! The route table: for each entity, the handlers its policies enable,
//! mounted under `/<lower-cased entity name>`.
use vstd::prelude::*;
use crate::schema::{EntityDescriptor, PolicyTag};
use crate::text::{lower_of, lowercase};

verus! {

#[derive(Clone, Copy, Debug, PartialEq, Eq, Structural)]
pub enum Method {
    Get,
    Post,
    Put,
    Delete,
}

/// One handler: its HTTP method, its path below the mount prefix, its name
/// and the policy it enforces.
#[derive(Clone, Debug)]
pub struct Route {
    pub method: Method,
    pub path: String,
    pub handler: String,
    pub policy: PolicyTag,
}

/// The handlers of one entity under their common prefix. `entity` is the
/// entity's position in the list the table was built from.
#[derive(Clone, Debug)]
pub struct Mount {
    pub prefix: String,
    pub entity: usize,
    pub routes: Vec<Route>,
}

pub open spec fn method_of(p: PolicyTag) -> Method {
    match p {
        PolicyTag::CreateAsOwner => Method::Post,
        PolicyTag::Read | PolicyTag::ReadIfOwner | PolicyTag::ReadIfVisible => Method::Get,
        PolicyTag::UpdateIfOwner => Method::Put,
        PolicyTag::DeleteIfOwner => Method::Delete,
    }
}

/// Create and update take the row in the body; read and delete name the id.
pub open spec fn path_of(p: PolicyTag) -> Seq<char> {
    match p {
        PolicyTag::CreateAsOwner | PolicyTag::UpdateIfOwner => "/"@,
        _ => "/<id>"@,
    }
}

pub open spec fn verb_of(p: PolicyTag) -> Seq<char> {
    match p {
        PolicyTag::CreateAsOwner => "create_"@,
        PolicyTag::Read | PolicyTag::ReadIfOwner | PolicyTag::ReadIfVisible => "read_"@,
        PolicyTag::UpdateIfOwner => "update_"@,
        PolicyTag::DeleteIfOwner => "delete_"@,
    }
}

pub open spec fn handler_name(p: PolicyTag, entity: Seq<char>) -> Seq<char> {
    verb_of(p) + lower_of(entity)
}

pub open spec fn prefix_of(entity: Seq<char>) -> Seq<char> {
    "/"@ + lower_of(entity)
}

pub open spec fn route_matches(r: Route, p: PolicyTag, entity: Seq<char>) -> bool {
    &&& r.method == method_of(p)
    &&& r.path@ == path_of(p)
    &&& r.handler@ == handler_name(p, entity)
    &&& r.policy == p
}

fn route(p: PolicyTag, lower: &str) -> (r: Route)
    ensures
        r.method == method_of(p),
        r.path@ == path_of(p),
        r.handler@ == verb_of(p) + lower@,
        r.policy == p,
{
    let (method, path, verb) = match p {
        PolicyTag::CreateAsOwner => (Method::Post, "/", "create_"),
        PolicyTag::Read | PolicyTag::ReadIfOwner | PolicyTag::ReadIfVisible => (
            Method::Get,
            "/<id>",
            "read_",
        ),
        PolicyTag::UpdateIfOwner => (Method::Put, "/", "update_"),
        PolicyTag::DeleteIfOwner => (Method::Delete, "/<id>", "delete_"),
    };
    let mut handler = String::from_str(verb);
    handler.append(lower);
    Route { method, path: String::from_str(path), handler, policy: p }
}

/// The routes of one entity, one for each enabled policy, in the order the
/// policies are declared.
pub fn routes_for(d: &EntityDescriptor) -> (r: Vec<Route>)
    ensures
        r@.len() == d.policies@.len(),
        forall|i: int|
            0 <= i < r@.len() ==> route_matches(#[trigger] r@[i], d.policies@[i], d.name@),
{
    let lower = lowercase(d.name.as_str());
    let mut r: Vec<Route> = Vec::new();
    let mut i: usize = 0;
    while i < d.policies.len()
        invariant
            i <= d.policies@.len(),
            lower@ == lower_of(d.name@),
            r@.len() == i,
            forall|k: int|
                0 <= k < i ==> route_matches(#[trigger] r@[k], d.policies@[k], d.name@),
        decreases d.policies.len() - i,
    {
        r.push(route(d.policies[i], lower.as_str()));
        i = i + 1;
    }
    r
}

/// `mounts` holds one mount for each entity of `ds` that enables at least
/// one policy, in the order of `ds`, under `/<lower-cased name>`, with the
/// entity's routes in the order of its policies.
pub open spec fn is_mount_table(ds: Seq<EntityDescriptor>, mounts: Seq<Mount>) -> bool {
    &&& forall|k: int|
        0 <= k < mounts.len() ==> {
            let m = #[trigger] mounts[k];
            &&& m.entity < ds.len()
            &&& ds[m.entity as int].policies@.len() > 0
            &&& m.prefix@ == prefix_of(ds[m.entity as int].name@)
            &&& m.routes@.len() == ds[m.entity as int].policies@.len()
            &&& forall|i: int|
                0 <= i < m.routes@.len() ==> route_matches(
                    #[trigger] m.routes@[i],
                    ds[m.entity as int].policies@[i],
                    ds[m.entity as int].name@,
                )
        }
    &&& forall|k: int, l: int| 0 <= k < l < mounts.len() ==> mounts[k].entity < mounts[l].entity
    &&& forall|j: int|
        0 <= j < ds.len() && (#[trigger] ds[j]).policies@.len() > 0 ==> exists|k: int|
            0 <= k < mounts.len() && mounts[k].entity == j
}

/// The mount table: one mount for each entity that enables at least one
/// policy, in the order of `ds`, under `/<lower-cased name>`.
pub fn mount_table(ds: &Vec<EntityDescriptor>) -> (r: Vec<Mount>)
    ensures
        is_mount_table(ds@, r@),
{
    let mut r: Vec<Mount> = Vec::new();
    let mut j: usize = 0;
    while j < ds.len()
        invariant
            j <= ds@.len(),
            forall|k: int|
                0 <= k < r@.len() ==> {
                    let m = #[trigger] r@[k];
                    &&& m.entity < j
                    &&& ds@[m.entity as int].policies@.len() > 0
                    &&& m.prefix@ == prefix_of(ds@[m.entity as int].name@)
                    &&& m.routes@.len() == ds@[m.entity as int].policies@.len()
                    &&& forall|i: int|
                        0 <= i < m.routes@.len() ==> route_matches(
                            #[trigger] m.routes@[i],
                            ds@[m.entity as int].policies@[i],
                            ds@[m.entity as int].name@,
                        )
                },
            forall|k: int, l: int| 0 <= k < l < r@.len() ==> r@[k].entity < r@[l].entity,
            forall|i: int|
                0 <= i < j && (#[trigger] ds@[i]).policies@.len() > 0 ==> exists|k: int|
                    0 <= k < r@.len() && r@[k].entity == i,
        decreases ds.len() - j,
    {
        let ghost old_r = r@;
        let d = &ds[j];
        if d.policies.len() > 0 {
            let mut prefix = String::from_str("/");
            let lower = lowercase(d.name.as_str());
            prefix.append(lower.as_str());
            r.push(Mount { prefix, entity: j, routes: routes_for(d) });
            assert forall|i: int|
                0 <= i <= j && (#[trigger] ds@[i]).policies@.len() > 0 implies exists|k: int|
                    0 <= k < r@.len() && r@[k].entity == i by {
                if i == j {
                    assert(r@[r@.len() - 1].entity == j);
                } else {
                    let k = choose|k: int| 0 <= k < old_r.len() && old_r[k].entity == i;
                    assert(r@[k] == old_r[k]);
                }
            }
        }
        j = j + 1;
    }
    r
}

/// The route registry of the application: built once from the compiled
/// descriptors and not changed afterwards.
#[derive(Clone, Debug)]
pub struct MemraRouter {
    mounts: Vec<Mount>,
}

impl MemraRouter {
    pub closed spec fn view_mounts(&self) -> Seq<Mount> {
        self.mounts@
    }

    /// The registry for the given descriptors.
    pub fn new(ds: &Vec<EntityDescriptor>) -> (r: Self)
        ensures
            is_mount_table(ds@, r.view_mounts()),
    {
        MemraRouter { mounts: mount_table(ds) }
    }

    /// The mounts, in the order of the descriptors.
    pub fn mounts(&self) -> (r: &Vec<Mount>)
        ensures
            r@ == self.view_mounts(),
    {
        &self.mounts
    }
}

} // verus!
