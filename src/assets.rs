//! Keeping the asset store in step with a project's asset list.
//!
//! Objects live under one of two prefixes: temporary (uploaded, not yet
//! referenced) and saved (referenced by a persisted project). A plan is
//! computed from what the store holds and is then carried out in order.
use vstd::prelude::*;

use crate::error::Error;
use crate::model::{contains_string, keys_of, string_views, Asset};
use vstd::string::StringExecFns;

verus! {

/// One operation against the asset store.
#[derive(Clone, Debug)]
pub enum StoreOp {
    /// Copy the temporary object `key` to the saved prefix.
    CopyToSaved { key: String },
    /// Remove the temporary object `key`.
    DeleteTemporary { key: String },
    /// Remove the saved object `key`.
    DeleteSaved { key: String },
    /// Copy the saved object `from` to the saved key `to`.
    CopySaved { from: String, to: String },
}

/// Which keys the store holds under each prefix.
pub struct StoreView {
    pub temporary: Set<Seq<char>>,
    pub saved: Set<Seq<char>>,
}

/// What the asset store holds, as lists of keys under each prefix.
pub struct StoreState {
    temporary: Vec<String>,
    saved: Vec<String>,
}

/// The set of strings a list holds.
pub open spec fn key_set(v: Seq<String>) -> Set<Seq<char>> {
    string_views(v).to_set()
}

impl View for StoreState {
    type V = StoreView;

    closed spec fn view(&self) -> StoreView {
        StoreView { temporary: key_set(self.temporary@), saved: key_set(self.saved@) }
    }
}

/// The effect of one operation. A copy whose source is absent changes nothing.
pub open spec fn apply_op(s: StoreView, op: StoreOp) -> StoreView {
    match op {
        StoreOp::CopyToSaved { key } => if s.temporary.contains(key@) {
            StoreView { temporary: s.temporary, saved: s.saved.insert(key@) }
        } else {
            s
        },
        StoreOp::DeleteTemporary { key } => StoreView {
            temporary: s.temporary.remove(key@),
            saved: s.saved,
        },
        StoreOp::DeleteSaved { key } => StoreView { temporary: s.temporary, saved: s.saved.remove(key@) },
        StoreOp::CopySaved { from, to } => if s.saved.contains(from@) {
            StoreView { temporary: s.temporary, saved: s.saved.insert(to@) }
        } else {
            s
        },
    }
}

/// The effect of a sequence of operations carried out in order.
pub open spec fn apply_ops(s: StoreView, ops: Seq<StoreOp>) -> StoreView
    decreases ops.len(),
{
    if ops.len() == 0 {
        s
    } else {
        apply_op(apply_ops(s, ops.drop_last()), ops.last())
    }
}

/// Every incoming key names an object, temporary or saved.
pub open spec fn reconcile_ok(incoming: Seq<Asset>, s: StoreView) -> bool {
    forall|k: Seq<char>| keys_of(incoming).contains(k) ==> s.saved.contains(k) || s.temporary.contains(k)
}

/// Keys that were referenced before and are no longer.
pub open spec fn dropped_keys(previous: Seq<Asset>, incoming: Seq<Asset>) -> Set<Seq<char>> {
    keys_of(previous).difference(keys_of(incoming))
}

/// The store once reconciled: dropped keys are gone from the saved prefix,
/// every incoming key is saved, and what was promoted has left the temporary
/// prefix.
pub open spec fn reconciled(previous: Seq<Asset>, incoming: Seq<Asset>, s: StoreView) -> StoreView {
    StoreView {
        temporary: s.temporary.difference(keys_of(incoming).difference(s.saved)),
        saved: s.saved.difference(dropped_keys(previous, incoming)).union(keys_of(incoming)),
    }
}

/// Nothing is left to do: no dropped key is saved and every incoming key is.
pub open spec fn settled(previous: Seq<Asset>, incoming: Seq<Asset>, s: StoreView) -> bool {
    dropped_keys(previous, incoming).disjoint(s.saved) && keys_of(incoming).subset_of(s.saved)
}

proof fn lemma_key_set_push(v: Seq<String>, x: String)
    ensures
        key_set(v.push(x)) == key_set(v).insert(x@),
{
    assert(string_views(v.push(x)) =~= string_views(v).push(x@));
    assert forall|k: Seq<char>| key_set(v.push(x)).contains(k) == key_set(v).insert(x@).contains(k) by {
        if key_set(v).contains(k) {
            let j = choose|j: int| 0 <= j < string_views(v).len() && string_views(v)[j] == k;
            assert(string_views(v.push(x))[j] == k);
        }
        if k == x@ {
            assert(string_views(v.push(x))[v.len() as int] == k);
        }
    }
    assert(key_set(v.push(x)) =~= key_set(v).insert(x@));
}

proof fn lemma_keys_of_push(assets: Seq<Asset>, i: int)
    requires
        0 <= i < assets.len(),
    ensures
        keys_of(assets.subrange(0, i + 1)) == keys_of(assets.subrange(0, i)).insert(assets[i].key@),
{
    let a = assets.subrange(0, i);
    let b = assets.subrange(0, i + 1);
    assert forall|k: Seq<char>| keys_of(b).contains(k) == keys_of(a).insert(assets[i].key@).contains(k) by {
        if keys_of(a).contains(k) {
            let j = choose|j: int| 0 <= j < a.len() && a[j].key@ == k;
            assert(b[j].key@ == k);
        }
        if keys_of(b).contains(k) && k != assets[i].key@ {
            let j = choose|j: int| 0 <= j < b.len() && b[j].key@ == k;
            assert(a[j].key@ == k);
        }
        if k == assets[i].key@ {
            assert(b[i].key@ == k);
        }
    }
    assert(keys_of(b) =~= keys_of(a).insert(assets[i].key@));
}

proof fn lemma_keys_of_all(assets: Seq<Asset>)
    ensures
        keys_of(assets.subrange(0, assets.len() as int)) == keys_of(assets),
{
    assert(assets.subrange(0, assets.len() as int) =~= assets);
}

proof fn lemma_apply_push(s: StoreView, ops: Seq<StoreOp>, op: StoreOp)
    ensures
        apply_ops(s, ops.push(op)) == apply_op(apply_ops(s, ops), op),
{
    assert(ops.push(op).drop_last() =~= ops);
}

/// Whether `key` is the key of one of `assets`.
pub fn has_key(assets: &Vec<Asset>, key: &String) -> (r: bool)
    ensures
        r == keys_of(assets@).contains(key@),
{
    let mut i: usize = 0;
    while i < assets.len()
        invariant
            0 <= i <= assets@.len(),
            forall|j: int| 0 <= j < i ==> assets@[j].key@ != key@,
        decreases assets@.len() - i,
    {
        if assets[i].key == *key {
            return true;
        }
        i = i + 1;
    }
    false
}

/// Adds `k` to the list unless it is there already.
fn insert_key(v: &mut Vec<String>, k: String)
    ensures
        key_set(final(v)@) == key_set(old(v)@).insert(k@),
{
    if contains_string(v, &k) {
        assert(key_set(old(v)@).insert(k@) =~= key_set(old(v)@));
    } else {
        proof {
            lemma_key_set_push(v@, k);
        }
        v.push(k);
    }
}

/// Removes every occurrence of `k` from the list.
fn remove_key(v: &mut Vec<String>, k: &String)
    ensures
        key_set(final(v)@) == key_set(old(v)@).remove(k@),
{
    let mut kept: Vec<String> = Vec::new();
    let mut i: usize = 0;
    while i < v.len()
        invariant
            0 <= i <= v@.len(),
            key_set(kept@) == key_set(v@.subrange(0, i as int)).remove(k@),
        decreases v@.len() - i,
    {
        let ghost before = kept@;
        proof {
            assert(v@.subrange(0, i as int + 1) =~= v@.subrange(0, i as int).push(v@[i as int]));
            lemma_key_set_push(v@.subrange(0, i as int), v@[i as int]);
        }
        if v[i] != *k {
            let x = v[i].clone();
            proof {
                lemma_key_set_push(kept@, x);
            }
            kept.push(x);
            assert(key_set(kept@) =~= key_set(v@.subrange(0, i as int + 1)).remove(k@));
        } else {
            assert(key_set(kept@) =~= key_set(v@.subrange(0, i as int + 1)).remove(k@));
        }
        i = i + 1;
    }
    assert(v@.subrange(0, i as int) =~= v@);
    *v = kept;
}

impl StoreState {
    /// A store holding the given temporary and saved keys.
    pub fn new(temporary: Vec<String>, saved: Vec<String>) -> (r: Self)
        ensures
            r@.temporary == key_set(temporary@),
            r@.saved == key_set(saved@),
    {
        StoreState { temporary, saved }
    }

    /// Whether a temporary object `key` exists.
    pub fn has_temporary(&self, key: &String) -> (r: bool)
        ensures
            r == self@.temporary.contains(key@),
    {
        contains_string(&self.temporary, key)
    }

    /// Whether a saved object `key` exists.
    pub fn has_saved(&self, key: &String) -> (r: bool)
        ensures
            r == self@.saved.contains(key@),
    {
        contains_string(&self.saved, key)
    }

    fn copy_list(v: &Vec<String>) -> (r: Vec<String>)
        ensures
            r@ == v@,
    {
        let mut r: Vec<String> = Vec::new();
        let mut i: usize = 0;
        while i < v.len()
            invariant
                0 <= i <= v@.len(),
                r@ == v@.subrange(0, i as int),
            decreases v@.len() - i,
        {
            r.push(v[i].clone());
            i = i + 1;
            assert(r@ =~= v@.subrange(0, i as int));
        }
        assert(v@.subrange(0, i as int) =~= v@);
        r
    }

    /// A copy of this store that can be changed on its own.
    pub fn snapshot(&self) -> (r: Self)
        ensures
            r@ == self@,
    {
        StoreState { temporary: Self::copy_list(&self.temporary), saved: Self::copy_list(&self.saved) }
    }

    /// Carries out one operation.
    pub fn apply(&mut self, op: &StoreOp)
        ensures
            final(self)@ == apply_op(old(self)@, *op),
    {
        match op {
            StoreOp::CopyToSaved { key } => {
                if contains_string(&self.temporary, key) {
                    insert_key(&mut self.saved, key.clone());
                }
            },
            StoreOp::DeleteTemporary { key } => {
                remove_key(&mut self.temporary, key);
            },
            StoreOp::DeleteSaved { key } => {
                remove_key(&mut self.saved, key);
            },
            StoreOp::CopySaved { from, to } => {
                if contains_string(&self.saved, from) {
                    insert_key(&mut self.saved, to.clone());
                }
            },
        }
    }

    /// Carries out a sequence of operations in order.
    pub fn apply_all(&mut self, ops: &Vec<StoreOp>)
        ensures
            final(self)@ == apply_ops(old(self)@, ops@),
    {
        let mut i: usize = 0;
        while i < ops.len()
            invariant
                0 <= i <= ops@.len(),
                self@ == apply_ops(old(self)@, ops@.subrange(0, i as int)),
            decreases ops@.len() - i,
        {
            proof {
                assert(ops@.subrange(0, i as int + 1) =~= ops@.subrange(0, i as int).push(ops@[i as int]));
                lemma_apply_push(old(self)@, ops@.subrange(0, i as int), ops@[i as int]);
            }
            self.apply(&ops[i]);
            i = i + 1;
        }
        assert(ops@.subrange(0, i as int) =~= ops@);
    }
}

/// Plans the reconciliation of the store with a project whose assets go from
/// `previous` to `incoming`. Saved objects that are no longer referenced are
/// deleted; each incoming key that is not saved yet is copied from the
/// temporary prefix and its temporary object deleted. When an incoming key
/// names no object at all the plan is refused as a whole.
pub fn plan_reconcile(previous: &Vec<Asset>, incoming: &Vec<Asset>, store: &StoreState) -> (r: Result<
    Vec<StoreOp>,
    Error,
>)
    ensures
        match r {
            Ok(ops) => {
                &&& reconcile_ok(incoming@, store@)
                &&& apply_ops(store@, ops@) == reconciled(previous@, incoming@, store@)
                &&& (ops@.len() == 0 <==> settled(previous@, incoming@, store@))
            },
            Err(e) => e == Error::AssetMissing && !reconcile_ok(incoming@, store@),
        },
{
    let mut i: usize = 0;
    while i < incoming.len()
        invariant
            0 <= i <= incoming@.len(),
            forall|j: int|
                0 <= j < i ==> store@.saved.contains(#[trigger] incoming@[j].key@) || store@.temporary.contains(
                    incoming@[j].key@,
                ),
        decreases incoming@.len() - i,
    {
        if !store.has_saved(&incoming[i].key) && !store.has_temporary(&incoming[i].key) {
            assert(keys_of(incoming@).contains(incoming@[i as int].key@));
            return Err(Error::AssetMissing);
        }
        i = i + 1;
    }
    assert(reconcile_ok(incoming@, store@));
    let ghost gone = dropped_keys(previous@, incoming@);
    let mut work = store.snapshot();
    let mut ops: Vec<StoreOp> = Vec::new();
    let mut i: usize = 0;
    while i < previous.len()
        invariant
            0 <= i <= previous@.len(),
            gone == dropped_keys(previous@, incoming@),
            work@.temporary == store@.temporary,
            work@.saved == store@.saved.difference(
                keys_of(previous@.subrange(0, i as int)).difference(keys_of(incoming@)),
            ),
            apply_ops(store@, ops@) == work@,
            ops@.len() == 0 <==> keys_of(previous@.subrange(0, i as int)).difference(
                keys_of(incoming@),
            ).disjoint(store@.saved),
        decreases previous@.len() - i,
    {
        proof {
            lemma_keys_of_push(previous@, i as int);
        }
        let key = &previous[i].key;
        if !has_key(incoming, key) && work.has_saved(key) {
            let op = StoreOp::DeleteSaved { key: key.clone() };
            proof {
                lemma_apply_push(store@, ops@, op);
            }
            work.apply(&op);
            ops.push(op);
        }
        i = i + 1;
        assert(work@.saved =~= store@.saved.difference(
            keys_of(previous@.subrange(0, i as int)).difference(keys_of(incoming@)),
        ));
    }
    proof {
        lemma_keys_of_all(previous@);
    }
    let mut i: usize = 0;
    while i < incoming.len()
        invariant
            0 <= i <= incoming@.len(),
            gone == dropped_keys(previous@, incoming@),
            reconcile_ok(incoming@, store@),
            work@.temporary == store@.temporary.difference(
                keys_of(incoming@.subrange(0, i as int)).difference(store@.saved),
            ),
            work@.saved == store@.saved.difference(gone).union(keys_of(incoming@.subrange(0, i as int))),
            apply_ops(store@, ops@) == work@,
            ops@.len() == 0 <==> gone.disjoint(store@.saved) && keys_of(incoming@.subrange(0, i as int)).subset_of(
                store@.saved,
            ),
        decreases incoming@.len() - i,
    {
        proof {
            lemma_keys_of_push(incoming@, i as int);
            assert(keys_of(incoming@).contains(incoming@[i as int].key@));
        }
        let key = &incoming[i].key;
        if !work.has_saved(key) {
            let copy = StoreOp::CopyToSaved { key: key.clone() };
            let drop = StoreOp::DeleteTemporary { key: key.clone() };
            proof {
                lemma_apply_push(store@, ops@, copy);
                lemma_apply_push(store@, ops@.push(copy), drop);
            }
            work.apply(&copy);
            ops.push(copy);
            work.apply(&drop);
            ops.push(drop);
        }
        i = i + 1;
        assert(work@.saved =~= store@.saved.difference(gone).union(keys_of(incoming@.subrange(0, i as int))));
        assert(work@.temporary =~= store@.temporary.difference(
            keys_of(incoming@.subrange(0, i as int)).difference(store@.saved),
        ));
    }
    proof {
        lemma_keys_of_all(incoming@);
    }
    Ok(ops)
}

/// The store once every saved object of `assets` is deleted.
pub open spec fn emptied(assets: Seq<Asset>, s: StoreView) -> StoreView {
    StoreView { temporary: s.temporary, saved: s.saved.difference(keys_of(assets)) }
}

/// Plans the removal of the saved objects of a project being deleted. Keys
/// whose object is already gone get no operation.
pub fn plan_delete_all(assets: &Vec<Asset>, store: &StoreState) -> (ops: Vec<StoreOp>)
    ensures
        apply_ops(store@, ops@) == emptied(assets@, store@),
        ops@.len() == 0 <==> keys_of(assets@).disjoint(store@.saved),
{
    let mut work = store.snapshot();
    let mut ops: Vec<StoreOp> = Vec::new();
    assert(keys_of(assets@.subrange(0, 0)) =~= Set::<Seq<char>>::empty());
    assert(emptied(assets@.subrange(0, 0), store@).saved =~= store@.saved);
    let mut i: usize = 0;
    while i < assets.len()
        invariant
            0 <= i <= assets@.len(),
            work@ == emptied(assets@.subrange(0, i as int), store@),
            apply_ops(store@, ops@) == work@,
            ops@.len() == 0 <==> keys_of(assets@.subrange(0, i as int)).disjoint(store@.saved),
        decreases assets@.len() - i,
    {
        proof {
            lemma_keys_of_push(assets@, i as int);
        }
        let key = &assets[i].key;
        if work.has_saved(key) {
            let op = StoreOp::DeleteSaved { key: key.clone() };
            proof {
                lemma_apply_push(store@, ops@, op);
            }
            work.apply(&op);
            ops.push(op);
        }
        i = i + 1;
        assert(work@.saved =~= emptied(assets@.subrange(0, i as int), store@).saved);
    }
    proof {
        lemma_keys_of_all(assets@);
    }
    ops
}

/// Reconciling twice with the same asset lists asks for nothing the second
/// time: the reconciled store is accepted and already settled.
pub proof fn lemma_reconcile_idempotent(previous: Seq<Asset>, incoming: Seq<Asset>, s: StoreView)
    requires
        reconcile_ok(incoming, s),
    ensures
        reconcile_ok(incoming, reconciled(previous, incoming, s)),
        settled(previous, incoming, reconciled(previous, incoming, s)),
        reconciled(previous, incoming, reconciled(previous, incoming, s)) == reconciled(previous, incoming, s),
{
    let t = reconciled(previous, incoming, s);
    let u = reconciled(previous, incoming, t);
    assert(u.saved =~= t.saved);
    assert(u.temporary =~= t.temporary);
}

/// After reconciling, no key that only the previous asset list referenced is
/// left under the saved prefix.
pub proof fn lemma_dropped_keys_removed(previous: Seq<Asset>, incoming: Seq<Asset>, s: StoreView, k: Seq<char>)
    requires
        keys_of(previous).contains(k),
        !keys_of(incoming).contains(k),
    ensures
        !reconciled(previous, incoming, s).saved.contains(k),
{
}

/// The asset list of a duplicate: each asset whose saved object exists, under
/// the new key given for it, in the original order; the others are left out.
pub open spec fn duplicated(assets: Seq<Asset>, names: Seq<String>, saved: Set<Seq<char>>, n: int) -> Seq<Asset>
    decreases n,
{
    if n <= 0 {
        Seq::empty()
    } else {
        let rest = duplicated(assets, names, saved, n - 1);
        let a = assets[n - 1];
        if saved.contains(a.key@) {
            rest.push(Asset { name: a.name, key: names[n - 1], clamp_to_ground: a.clamp_to_ground })
        } else {
            rest
        }
    }
}

/// The copies a duplicate needs, one per asset kept by `duplicated`.
pub open spec fn duplicate_copies(assets: Seq<Asset>, names: Seq<String>, saved: Set<Seq<char>>, n: int) -> Seq<
    StoreOp,
>
    decreases n,
{
    if n <= 0 {
        Seq::empty()
    } else {
        let rest = duplicate_copies(assets, names, saved, n - 1);
        let a = assets[n - 1];
        if saved.contains(a.key@) {
            rest.push(StoreOp::CopySaved { from: a.key, to: names[n - 1] })
        } else {
            rest
        }
    }
}

/// Plans the copies for duplicating a project's assets: the saved object of
/// `assets[i]`, when it exists, is copied to the saved key `names[i]`.
pub fn plan_duplicate(assets: &Vec<Asset>, names: &Vec<String>, store: &StoreState) -> (r: (
    Vec<Asset>,
    Vec<StoreOp>,
))
    requires
        names@.len() == assets@.len(),
    ensures
        r.0@ == duplicated(assets@, names@, store@.saved, assets@.len() as int),
        r.1@ == duplicate_copies(assets@, names@, store@.saved, assets@.len() as int),
{
    let mut kept: Vec<Asset> = Vec::new();
    let mut ops: Vec<StoreOp> = Vec::new();
    let mut i: usize = 0;
    while i < assets.len()
        invariant
            0 <= i <= assets@.len(),
            names@.len() == assets@.len(),
            kept@ == duplicated(assets@, names@, store@.saved, i as int),
            ops@ == duplicate_copies(assets@, names@, store@.saved, i as int),
        decreases assets@.len() - i,
    {
        let a = &assets[i];
        if store.has_saved(&a.key) {
            kept.push(Asset { name: a.name.clone(), key: names[i].clone(), clamp_to_ground: a.clamp_to_ground });
            ops.push(StoreOp::CopySaved { from: a.key.clone(), to: names[i].clone() });
        }
        i = i + 1;
    }
    (kept, ops)
}

/// Where the temporary object of `key` is stored.
pub fn temporary_path(key: &String) -> (r: String)
    ensures
        r@ == "assets/temp/"@ + key@,
{
    let mut p = String::from_str("assets/temp/");
    p.append(key.as_str());
    p
}

/// Where the saved object of `key` is stored.
pub fn saved_path(key: &String) -> (r: String)
    ensures
        r@ == "assets/saved/"@ + key@,
{
    let mut p = String::from_str("assets/saved/");
    p.append(key.as_str());
    p
}

} // verus!
