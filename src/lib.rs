//! Access control and asset lifecycle for a project-management backend.
//!
//! Bearer tokens are checked against a cached set of signing keys, callers are
//! authorized against a project's owner, viewers and editors, and the objects
//! a project refers to are kept in step with the project's asset list.
use vstd::prelude::*;

pub mod assets;
pub mod config;
pub mod error;
pub mod keyset;
pub mod model;
pub mod naming;
pub mod policy;
pub mod project;
pub mod token;

pub use assets::{
    plan_delete_all, plan_duplicate, plan_reconcile, saved_path, temporary_path, StoreOp, StoreState,
};
pub use config::{Auth, ClientConfig, CognitoConfig, Config, Database};
pub use error::{AuthError, Error};
pub use keyset::{KeyAlg, KeyMaterial, KeySetCache, SigningKey};
pub use model::{Asset, Claims, CreateProject, Member, Project, UploadResponse, View};
pub use naming::{asset_name, generate_asset_name, generate_asset_names};
pub use policy::{authorize, authorize_folded, authorize_project, lowercase_email, Action, Decision};
pub use project::{
    create_project, delete_project, duplicate_project, fold_project, get_project, list_projects,
    update_project, update_project_geometries,
};
pub use token::{authenticate, check_claims, key_algorithm, key_algorithm_to_algorithm, verify, SigAlg};

verus! {

} // verus!
