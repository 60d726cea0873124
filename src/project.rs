//! One decision per request: a verified caller, the stored project and what
//! the asset store holds go in; the project to persist and the store
//! operations to carry out, or the error, come out. Each request stops at
//! its first failure.
use vstd::prelude::*;

use crate::assets::{
    apply_ops, duplicate_copies, duplicated, emptied, plan_delete_all, plan_duplicate, plan_reconcile,
    reconcile_ok, reconciled, StoreOp, StoreState,
};
use crate::error::Error;
use crate::model::{Asset, Claims, CreateProject, Member, Project};
use crate::policy::{authorize, authorize_project, lower_of, lowercase_email, permits_members, Action, Decision};

verus! {

/// `p` as it is first persisted from `c`.
pub open spec fn created_from(c: CreateProject, id: String, now: i64) -> Project {
    Project {
        id,
        title: c.title,
        description: c.description,
        created: now,
        modified: None,
        image: c.image,
        color: c.color,
        views: c.views,
        assets: c.assets,
        owner: c.owner,
        viewers: c.viewers,
        editors: c.editors,
        geometries: c.geometries,
    }
}

/// The submitted project, with the identity and creation time of the stored
/// one and the time of this change.
pub open spec fn updated_from(saved: Project, incoming: Project, now: i64) -> Project {
    Project { id: saved.id, created: saved.created, modified: Some(now), ..incoming }
}

pub open spec fn may(action: Action, claims: Claims, owner: Member, viewers: Seq<Member>, editors: Seq<Member>) -> bool {
    permits_members(action, claims.email@, owner, viewers, editors)
}

pub open spec fn may_on(action: Action, claims: Claims, p: Project) -> bool {
    may(action, claims, p.owner, p.viewers@, p.editors@)
}

/// `b` is `a` with its e-mail address in lower case.
pub open spec fn member_folded(a: Member, b: Member) -> bool {
    b.email@ == lower_of(a.email@) && b.name == a.name && b.surname == a.surname
}

pub open spec fn members_folded(a: Seq<Member>, b: Seq<Member>) -> bool {
    a.len() == b.len() && forall|i: int| 0 <= i < a.len() ==> member_folded(#[trigger] a[i], b[i])
}

/// `q` is `p` with every e-mail address of its owner, viewers and editors in
/// lower case.
pub open spec fn project_folded(p: Project, q: Project) -> bool {
    &&& member_folded(p.owner, q.owner)
    &&& members_folded(p.viewers@, q.viewers@)
    &&& members_folded(p.editors@, q.editors@)
    &&& q == Project { owner: q.owner, viewers: q.viewers, editors: q.editors, ..p }
}

/// The projects of `ps` that the holder of `claims` may see, in order.
pub open spec fn visible(claims: Claims, ps: Seq<Project>) -> Seq<Project>
    decreases ps.len(),
{
    if ps.len() == 0 {
        Seq::empty()
    } else {
        let rest = visible(claims, ps.drop_last());
        if may_on(Action::List, claims, ps.last()) {
            rest.push(ps.last())
        } else {
            rest
        }
    }
}

fn fold_member(m: &Member) -> (r: Member)
    ensures
        member_folded(*m, r),
{
    Member { email: lowercase_email(&m.email), name: m.name.clone(), surname: m.surname.clone() }
}

fn fold_members(ms: &Vec<Member>) -> (r: Vec<Member>)
    ensures
        members_folded(ms@, r@),
{
    let mut r: Vec<Member> = Vec::new();
    let mut i: usize = 0;
    while i < ms.len()
        invariant
            0 <= i <= ms@.len(),
            r@.len() == i,
            forall|j: int| 0 <= j < i ==> member_folded(#[trigger] ms@[j], r@[j]),
        decreases ms@.len() - i,
    {
        let m = fold_member(&ms[i]);
        r.push(m);
        i = i + 1;
    }
    r
}

/// The project with the e-mail addresses of its members in lower case, as
/// they are handed to clients.
pub fn fold_project(p: Project) -> (r: Project)
    ensures
        project_folded(p, r),
{
    let owner = fold_member(&p.owner);
    let viewers = fold_members(&p.viewers);
    let editors = fold_members(&p.editors);
    Project { owner, viewers, editors, ..p }
}

/// Creates a project for its own owner: only the caller may be the owner.
/// The submitted assets are promoted from temporary storage.
pub fn create_project(claims: &Claims, project: CreateProject, store: &StoreState, id: String, now: i64) -> (r:
    Result<(Project, Vec<StoreOp>), Error>)
    ensures
        match r {
            Ok((p, ops)) => {
                &&& may(Action::Create, *claims, project.owner, project.viewers@, project.editors@)
                &&& reconcile_ok(project.assets@, store@)
                &&& p == created_from(project, id, now)
                &&& apply_ops(store@, ops@) == reconciled(Seq::empty(), project.assets@, store@)
            },
            Err(e) => if !may(Action::Create, *claims, project.owner, project.viewers@, project.editors@) {
                e == Error::Forbidden
            } else {
                e == Error::AssetMissing && !reconcile_ok(project.assets@, store@)
            },
        },
{
    if authorize(Action::Create, claims, &project.owner, &project.viewers, &project.editors)
        == Decision::Denied {
        return Err(Error::Forbidden);
    }
    let none: Vec<Asset> = Vec::new();
    let ops = match plan_reconcile(&none, &project.assets, store) {
        Ok(ops) => ops,
        Err(e) => return Err(e),
    };
    assert(none@ =~= Seq::<Asset>::empty());
    let p = Project {
        id,
        title: project.title,
        description: project.description,
        created: now,
        modified: None,
        image: project.image,
        color: project.color,
        views: project.views,
        assets: project.assets,
        owner: project.owner,
        viewers: project.viewers,
        editors: project.editors,
        geometries: project.geometries,
    };
    Ok((p, ops))
}

/// Hands a stored project to a caller who may read it.
pub fn get_project(claims: &Claims, project: Project) -> (r: Result<Project, Error>)
    ensures
        match r {
            Ok(q) => may_on(Action::Read, *claims, project) && project_folded(project, q),
            Err(e) => e == Error::Forbidden && !may_on(Action::Read, *claims, project),
        },
{
    if authorize_project(Action::Read, claims, &project)
        == Decision::Denied {
        return Err(Error::Forbidden);
    }
    Ok(fold_project(project))
}

/// The projects the caller may see, in their order, as handed to clients.
pub fn list_projects(claims: &Claims, projects: Vec<Project>) -> (r: Vec<Project>)
    ensures
        r@.len() == visible(*claims, projects@).len(),
        forall|i: int| 0 <= i < r@.len() ==> project_folded(#[trigger] visible(*claims, projects@)[i], r@[i]),
{
    let ghost all = projects@;
    assert(all.len() == projects.len());
    let mut rest = projects;
    let mut r: Vec<Project> = Vec::new();
    let mut i: usize = 0;
    while rest.len() > 0
        invariant
            0 <= i <= all.len(),
            all.len() <= usize::MAX,
            rest@ == all.subrange(i as int, all.len() as int),
            r@.len() == visible(*claims, all.subrange(0, i as int)).len(),
            forall|j: int|
                0 <= j < r@.len() ==> project_folded(#[trigger] visible(*claims, all.subrange(0, i as int))[j], r@[j]),
        decreases rest@.len(),
    {
        let p = rest.remove(0);
        proof {
            assert(all.subrange(0, i as int + 1).drop_last() =~= all.subrange(0, i as int));
            assert(all.subrange(0, i as int + 1).last() == p);
        }
        if authorize_project(Action::List, claims, &p) == Decision::Allowed {
            r.push(fold_project(p));
        }
        i = i + 1;
        assert(rest@ =~= all.subrange(i as int, all.len() as int));
    }
    assert(all.subrange(0, i as int) =~= all);
    r
}

/// Replaces a stored project with the submitted one, for its owner or an
/// editor. Assets the stored project referenced and the submitted one does
/// not are deleted; new ones are promoted.
pub fn update_project(claims: &Claims, saved: &Project, incoming: Project, store: &StoreState, now: i64) -> (r:
    Result<(Project, Vec<StoreOp>), Error>)
    ensures
        match r {
            Ok((p, ops)) => {
                &&& may_on(Action::Update, *claims, *saved)
                &&& reconcile_ok(incoming.assets@, store@)
                &&& p == updated_from(*saved, incoming, now)
                &&& apply_ops(store@, ops@) == reconciled(saved.assets@, incoming.assets@, store@)
            },
            Err(e) => if !may_on(Action::Update, *claims, *saved) {
                e == Error::Forbidden
            } else {
                e == Error::AssetMissing && !reconcile_ok(incoming.assets@, store@)
            },
        },
{
    if authorize_project(Action::Update, claims, saved) == Decision::Denied {
        return Err(Error::Forbidden);
    }
    let ops = match plan_reconcile(&saved.assets, &incoming.assets, store) {
        Ok(ops) => ops,
        Err(e) => return Err(e),
    };
    let p = Project { id: saved.id.clone(), created: saved.created, modified: Some(now), ..incoming };
    Ok((p, ops))
}

/// Deletes a stored project, for its owner or an editor. Its saved assets are
/// removed, as far as they still exist.
pub fn delete_project(claims: &Claims, saved: &Project, store: &StoreState) -> (r: Result<Vec<StoreOp>, Error>)
    ensures
        match r {
            Ok(ops) => may_on(Action::Delete, *claims, *saved) && apply_ops(store@, ops@) == emptied(
                saved.assets@,
                store@,
            ),
            Err(e) => e == Error::Forbidden && !may_on(Action::Delete, *claims, *saved),
        },
{
    if authorize_project(Action::Delete, claims, saved) == Decision::Denied {
        return Err(Error::Forbidden);
    }
    Ok(plan_delete_all(&saved.assets, store))
}

/// Replaces the geometries of a stored project, for its owner or an editor.
pub fn update_project_geometries(claims: &Claims, saved: Project, geometries: Vec<String>, now: i64) -> (r:
    Result<Project, Error>)
    ensures
        match r {
            Ok(p) => may_on(Action::MutateGeometries, *claims, saved) && p == Project {
                geometries,
                modified: Some(now),
                ..saved
            },
            Err(e) => e == Error::Forbidden && !may_on(Action::MutateGeometries, *claims, saved),
        },
{
    if authorize_project(Action::MutateGeometries, claims, &saved)
        == Decision::Denied {
        return Err(Error::Forbidden);
    }
    Ok(Project { geometries, modified: Some(now), ..saved })
}

/// `p` is the duplicate of `c`: a fresh identity, no viewers or editors, and
/// the assets that still exist under new keys.
pub open spec fn duplicate_of(c: CreateProject, p: Project, names: Seq<String>, store: StoreState, id: String, now: i64) -> bool {
    &&& p.id == id
    &&& p.title == c.title
    &&& p.description == c.description
    &&& p.created == now
    &&& p.modified is None
    &&& p.image == c.image
    &&& p.color == c.color
    &&& p.views == c.views
    &&& p.owner == c.owner
    &&& p.viewers@.len() == 0
    &&& p.editors@.len() == 0
    &&& p.geometries == c.geometries
    &&& p.assets@ == duplicated(c.assets@, names, store@.saved, c.assets@.len() as int)
}

/// Creates a copy of a project for its owner. Each asset whose saved object
/// exists is copied to the new key `names[i]`; the others are left out.
pub fn duplicate_project(
    claims: &Claims,
    project: CreateProject,
    names: &Vec<String>,
    store: &StoreState,
    id: String,
    now: i64,
) -> (r: Result<(Project, Vec<StoreOp>), Error>)
    requires
        names@.len() == project.assets@.len(),
    ensures
        match r {
            Ok((p, ops)) => {
                &&& may(Action::Create, *claims, project.owner, project.viewers@, project.editors@)
                &&& duplicate_of(project, p, names@, *store, id, now)
                &&& ops@ == duplicate_copies(project.assets@, names@, store@.saved, project.assets@.len() as int)
            },
            Err(e) => e == Error::Forbidden && !may(
                Action::Create,
                *claims,
                project.owner,
                project.viewers@,
                project.editors@,
            ),
        },
{
    if authorize(Action::Create, claims, &project.owner, &project.viewers, &project.editors)
        == Decision::Denied {
        return Err(Error::Forbidden);
    }
    let (assets, ops) = plan_duplicate(&project.assets, names, store);
    let p = Project {
        id,
        title: project.title,
        description: project.description,
        created: now,
        modified: None,
        image: project.image,
        color: project.color,
        views: project.views,
        assets,
        owner: project.owner,
        viewers: Vec::new(),
        editors: Vec::new(),
        geometries: project.geometries,
    };
    Ok((p, ops))
}

} // verus!
