use api::{
    plan_delete_all, plan_duplicate, plan_reconcile, saved_path, temporary_path, Asset, Error, StoreOp,
    StoreState,
};

fn strings(v: &[&str]) -> Vec<String> {
    v.iter().map(|s| s.to_string()).collect()
}

fn assets(keys: &[&str]) -> Vec<Asset> {
    keys.iter()
        .map(|k| Asset { name: format!("{}.kml", k), key: k.to_string(), clamp_to_ground: None })
        .collect()
}

fn sorted(mut v: Vec<String>) -> Vec<String> {
    v.sort();
    v
}

fn temporary(s: &StoreState, keys: &[&str]) -> Vec<String> {
    keys.iter().filter(|k| s.has_temporary(&k.to_string())).map(|k| k.to_string()).collect()
}

fn saved(s: &StoreState, keys: &[&str]) -> Vec<String> {
    keys.iter().filter(|k| s.has_saved(&k.to_string())).map(|k| k.to_string()).collect()
}

const ALL: &[&str] = &["k1", "k2", "k3", "k4"];

#[test]
fn update_deletes_dropped_and_promotes_new() {
    let mut store = StoreState::new(strings(&["k3"]), strings(&["k1", "k2"]));
    let ops = plan_reconcile(&assets(&["k1", "k2"]), &assets(&["k2", "k3"]), &store).unwrap();
    store.apply_all(&ops);
    assert_eq!(sorted(saved(&store, ALL)), strings(&["k2", "k3"]));
    assert!(temporary(&store, ALL).is_empty());
}

#[test]
fn create_promotes_temporary_asset() {
    let mut store = StoreState::new(strings(&["k1"]), vec![]);
    let ops = plan_reconcile(&vec![], &assets(&["k1"]), &store).unwrap();
    assert_eq!(ops.len(), 2);
    assert!(matches!(&ops[0], StoreOp::CopyToSaved { key } if key == "k1"));
    assert!(matches!(&ops[1], StoreOp::DeleteTemporary { key } if key == "k1"));
    store.apply_all(&ops);
    assert!(store.has_saved(&"k1".to_string()));
    assert!(!store.has_temporary(&"k1".to_string()));
}

#[test]
fn second_reconcile_asks_for_nothing() {
    let mut store = StoreState::new(strings(&["k3", "k4"]), strings(&["k1", "k2"]));
    let prev = assets(&["k1", "k2"]);
    let next = assets(&["k2", "k3"]);
    let ops = plan_reconcile(&prev, &next, &store).unwrap();
    assert_eq!(ops.len(), 3);
    store.apply_all(&ops);
    let again = plan_reconcile(&prev, &next, &store).unwrap();
    assert!(again.is_empty());
}

#[test]
fn unchanged_assets_are_a_no_op() {
    let store = StoreState::new(vec![], strings(&["k1", "k2"]));
    let ops = plan_reconcile(&assets(&["k1", "k2"]), &assets(&["k1", "k2"]), &store).unwrap();
    assert!(ops.is_empty());
}

#[test]
fn missing_asset_fails_without_any_operation() {
    let store = StoreState::new(strings(&["k3"]), strings(&["k1"]));
    let r = plan_reconcile(&assets(&["k1"]), &assets(&["k3", "k9"]), &store);
    assert_eq!(r.unwrap_err(), Error::AssetMissing);
    assert_eq!(Error::AssetMissing.status_code(), 400);
}

#[test]
fn saved_copy_wins_over_temporary() {
    let store = StoreState::new(strings(&["k1"]), strings(&["k1"]));
    let ops = plan_reconcile(&vec![], &assets(&["k1"]), &store).unwrap();
    assert!(ops.is_empty());
}

#[test]
fn repeated_keys_are_handled_once() {
    let mut store = StoreState::new(strings(&["k2"]), strings(&["k1"]));
    let ops = plan_reconcile(&assets(&["k1", "k1"]), &assets(&["k2", "k2"]), &store).unwrap();
    assert_eq!(ops.len(), 3);
    store.apply_all(&ops);
    assert_eq!(saved(&store, ALL), strings(&["k2"]));
    assert!(temporary(&store, ALL).is_empty());
}

#[test]
fn dropped_key_already_gone_is_not_deleted_again() {
    let store = StoreState::new(vec![], strings(&["k2"]));
    let ops = plan_reconcile(&assets(&["k1", "k2"]), &assets(&["k2"]), &store).unwrap();
    assert!(ops.is_empty());
}

#[test]
fn delete_removes_existing_saved_assets() {
    let mut store = StoreState::new(strings(&["k9"]), strings(&["k1", "k3"]));
    let ops = plan_delete_all(&assets(&["k1", "k2"]), &store);
    assert_eq!(ops.len(), 1);
    assert!(matches!(&ops[0], StoreOp::DeleteSaved { key } if key == "k1"));
    store.apply_all(&ops);
    assert_eq!(saved(&store, ALL), strings(&["k3"]));
    assert!(store.has_temporary(&"k9".to_string()));
    assert!(plan_delete_all(&vec![], &store).is_empty());
}

#[test]
fn duplicate_copies_existing_assets_under_new_keys() {
    let mut store = StoreState::new(vec![], strings(&["k1", "k3"]));
    let (kept, ops) = plan_duplicate(&assets(&["k1", "k2", "k3"]), &strings(&["n1", "n2", "n3"]), &store);
    assert_eq!(kept.len(), 2);
    assert_eq!(kept[0].key, "n1");
    assert_eq!(kept[0].name, "k1.kml");
    assert_eq!(kept[1].key, "n3");
    assert_eq!(ops.len(), 2);
    assert!(matches!(&ops[1], StoreOp::CopySaved { from, to } if from == "k3" && to == "n3"));
    store.apply_all(&ops);
    assert!(store.has_saved(&"n1".to_string()));
    assert!(store.has_saved(&"k1".to_string()));
    assert!(!store.has_saved(&"n2".to_string()));
}

#[test]
fn copy_of_absent_object_changes_nothing() {
    let mut store = StoreState::new(vec![], vec![]);
    store.apply(&StoreOp::CopyToSaved { key: "k1".to_string() });
    store.apply(&StoreOp::CopySaved { from: "k1".to_string(), to: "k2".to_string() });
    assert!(!store.has_saved(&"k1".to_string()));
    assert!(!store.has_saved(&"k2".to_string()));
}

#[test]
fn storage_paths() {
    assert_eq!(temporary_path(&"a.kml".to_string()), "assets/temp/a.kml");
    assert_eq!(saved_path(&"a.kml".to_string()), "assets/saved/a.kml");
}
