//! The documents and records the library reasons about.
use vstd::prelude::*;
use vstd::view::View as HasView;

verus! {

/// A person listed on a project as owner, viewer or editor.
#[derive(Clone, Debug)]
pub struct Member {
    pub email: String,
    pub name: String,
    pub surname: String,
}

/// A reference from a project to an object in the asset store.
#[derive(Clone, Debug)]
pub struct Asset {
    pub name: String,
    /// Storage key generated by the system; the object lives under a
    /// temporary or a saved prefix.
    pub key: String,
    pub clamp_to_ground: Option<bool>,
}

/// A saved camera view of a project.
#[derive(Clone, Debug)]
pub struct View {
    pub id: String,
    pub title: String,
    pub permalink: String,
}

/// What an upload hands back: the key of the new temporary object.
#[derive(Clone, Debug)]
pub struct UploadResponse {
    pub key: String,
}

/// The identity a verified bearer token carries.
#[derive(Clone, Debug)]
pub struct Claims {
    pub aud: String,
    pub exp: u64,
    pub iss: String,
    pub email: String,
}

/// A project as a client submits it for creation or duplication.
#[derive(Clone, Debug)]
pub struct CreateProject {
    pub owner: Member,
    pub viewers: Vec<Member>,
    pub editors: Vec<Member>,
    pub title: String,
    pub description: Option<String>,
    pub image: Option<String>,
    pub color: String,
    pub views: Vec<View>,
    pub assets: Vec<Asset>,
    /// Each geometry as the JSON text the client sent.
    pub geometries: Vec<String>,
}

/// A persisted project document.
#[derive(Clone, Debug)]
pub struct Project {
    /// Identifier assigned once at creation.
    pub id: String,
    pub title: String,
    pub description: Option<String>,
    /// Creation time, in seconds since the Unix epoch.
    pub created: i64,
    /// Time of the last mutation, in seconds since the Unix epoch.
    pub modified: Option<i64>,
    pub image: Option<String>,
    pub color: String,
    pub views: Vec<View>,
    pub assets: Vec<Asset>,
    pub owner: Member,
    pub viewers: Vec<Member>,
    pub editors: Vec<Member>,
    /// Each geometry as JSON text.
    pub geometries: Vec<String>,
}

/// The storage keys a list of assets refers to.
pub open spec fn keys_of(assets: Seq<Asset>) -> Set<Seq<char>> {
    Set::new(|k: Seq<char>| exists|j: int| 0 <= j < assets.len() && assets[j].key@ == k)
}

/// The views of a list of strings.
pub open spec fn string_views(v: Seq<String>) -> Seq<Seq<char>> {
    v.map_values(|s: String| s@)
}

/// Whether `s` is one of `list`.
pub fn contains_string(list: &Vec<String>, s: &String) -> (r: bool)
    ensures
        r == string_views(list@).contains(s@),
{
    let mut i: usize = 0;
    while i < list.len()
        invariant
            0 <= i <= list@.len(),
            forall|j: int| 0 <= j < i ==> list@[j]@ != s@,
        decreases list@.len() - i,
    {
        if list[i] == *s {
            assert(string_views(list@)[i as int] == s@);
            return true;
        }
        i = i + 1;
    }
    proof {
        if string_views(list@).contains(s@) {
            let j = choose|j: int| 0 <= j < string_views(list@).len() && string_views(list@)[j] == s@;
            assert(list@[j]@ == s@);
        }
    }
    false
}

} // verus!
