//! Who may do what with a project. E-mail addresses compare without regard
//! to case.
use vstd::prelude::*;

use crate::model::{contains_string, string_views, Claims, Member, Project};

verus! {

/// What a caller asks to do with a project.
#[derive(Clone, Copy, Debug, PartialEq, Eq, Structural)]
pub enum Action {
    Create,
    Read,
    List,
    Update,
    Delete,
    MutateGeometries,
}

/// The answer of the policy.
#[derive(Clone, Copy, Debug, PartialEq, Eq, Structural)]
pub enum Decision {
    Allowed,
    Denied,
}

/// The lower-case form of a string.
pub uninterp spec fn lower_of(s: Seq<char>) -> Seq<char>;

/// Relies on `str::to_lowercase`: the result depends on the characters alone.
#[verifier::external_body]
fn lowercase(s: &String) -> (r: String)
    ensures
        r@ == lower_of(s@),
{
    s.to_lowercase()
}

/// The lower-case form of an e-mail address.
pub fn lowercase_email(s: &String) -> (r: String)
    ensures
        r@ == lower_of(s@),
{
    lowercase(s)
}

/// The lower-cased e-mail addresses of a list of members.
pub open spec fn folded_emails(members: Seq<Member>) -> Seq<Seq<char>> {
    members.map_values(|m: Member| lower_of(m.email@))
}

pub open spec fn decision_of(b: bool) -> Decision {
    if b {
        Decision::Allowed
    } else {
        Decision::Denied
    }
}

/// The rules, over e-mail addresses that are already lower-cased: creating is
/// for the future owner alone, reading and listing for owner, viewers and
/// editors, every mutation for owner and editors.
pub open spec fn permits(
    action: Action,
    caller: Seq<char>,
    owner: Seq<char>,
    viewers: Seq<Seq<char>>,
    editors: Seq<Seq<char>>,
) -> bool {
    match action {
        Action::Create => caller == owner,
        Action::Read | Action::List => caller == owner || viewers.contains(caller) || editors.contains(
            caller,
        ),
        Action::Update | Action::Delete | Action::MutateGeometries => caller == owner
            || editors.contains(caller),
    }
}

/// The policy applied to a caller and the membership of a project.
pub open spec fn permits_members(
    action: Action,
    caller: Seq<char>,
    owner: Member,
    viewers: Seq<Member>,
    editors: Seq<Member>,
) -> bool {
    permits(action, lower_of(caller), lower_of(owner.email@), folded_emails(viewers), folded_emails(editors))
}

/// Decides `action` for a caller, over e-mail addresses already lower-cased.
pub fn authorize_folded(
    action: Action,
    caller: &String,
    owner: &String,
    viewers: &Vec<String>,
    editors: &Vec<String>,
) -> (r: Decision)
    ensures
        r == decision_of(permits(action, caller@, owner@, string_views(viewers@), string_views(editors@))),
{
    let allowed = match action {
        Action::Create => *caller == *owner,
        Action::Read | Action::List => *caller == *owner || contains_string(viewers, caller)
            || contains_string(editors, caller),
        Action::Update | Action::Delete | Action::MutateGeometries => *caller == *owner
            || contains_string(editors, caller),
    };
    if allowed {
        Decision::Allowed
    } else {
        Decision::Denied
    }
}

/// The lower-cased e-mail addresses of `members`.
pub fn fold_emails(members: &Vec<Member>) -> (r: Vec<String>)
    ensures
        string_views(r@) == folded_emails(members@),
{
    let mut r: Vec<String> = Vec::new();
    let mut i: usize = 0;
    while i < members.len()
        invariant
            0 <= i <= members@.len(),
            r@.len() == i,
            string_views(r@) == folded_emails(members@.subrange(0, i as int)),
        decreases members@.len() - i,
    {
        let e = lowercase(&members[i].email);
        let ghost before = r@;
        r.push(e);
        proof {
            let next = members@.subrange(0, i as int + 1);
            assert(string_views(before) == folded_emails(members@.subrange(0, i as int)));
            assert forall|j: int| 0 <= j < next.len() implies string_views(r@)[j] == folded_emails(next)[j] by {
                if j < i {
                    assert(r@[j] == before[j]);
                    assert(folded_emails(members@.subrange(0, i as int))[j] == lower_of(members@[j].email@));
                }
            }
            assert(string_views(r@) =~= folded_emails(next));
        }
        i = i + 1;
    }
    assert(members@.subrange(0, i as int) =~= members@);
    r
}

/// Decides `action` for the holder of `claims` on a project with the given
/// owner, viewers and editors, ignoring the case of e-mail addresses.
pub fn authorize(
    action: Action,
    claims: &Claims,
    owner: &Member,
    viewers: &Vec<Member>,
    editors: &Vec<Member>,
) -> (r: Decision)
    ensures
        r == decision_of(permits_members(action, claims.email@, *owner, viewers@, editors@)),
{
    let caller = lowercase(&claims.email);
    let owner_email = lowercase(&owner.email);
    let v = fold_emails(viewers);
    let e = fold_emails(editors);
    authorize_folded(action, &caller, &owner_email, &v, &e)
}

/// Decides `action` for the holder of `claims` on a persisted project.
pub fn authorize_project(action: Action, claims: &Claims, project: &Project) -> (r: Decision)
    ensures
        r == decision_of(
            permits_members(action, claims.email@, project.owner, project.viewers@, project.editors@),
        ),
{
    authorize(action, claims, &project.owner, &project.viewers, &project.editors)
}

/// A viewer who is neither owner nor editor is denied every update; the owner
/// and every editor are allowed it.
pub proof fn lemma_update_rights(
    caller: Seq<char>,
    owner: Seq<char>,
    viewers: Seq<Seq<char>>,
    editors: Seq<Seq<char>>,
)
    ensures
        viewers.contains(caller) && caller != owner && !editors.contains(caller) ==> !permits(
            Action::Update,
            caller,
            owner,
            viewers,
            editors,
        ),
        caller == owner || editors.contains(caller) ==> permits(Action::Update, caller, owner, viewers, editors),
{
}

} // verus!
