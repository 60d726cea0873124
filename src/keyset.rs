//! The cached set of public signing keys of the identity provider.
use vstd::prelude::*;

verus! {

/// The algorithm a published key declares.
#[derive(Clone, Copy, Debug, PartialEq, Eq, Structural)]
pub enum KeyAlg {
    Hs256,
    Hs384,
    Hs512,
    Es256,
    Es384,
    Rs256,
    Rs384,
    Rs512,
    Ps256,
    Ps384,
    Ps512,
    EdDsa,
    Rsa15,
    RsaOaep,
    RsaOaep256,
}

/// The public material of a key, as base64url text.
#[derive(Clone, Debug)]
pub enum KeyMaterial {
    /// RSA modulus and exponent.
    Rsa { n: String, e: String },
    /// Elliptic-curve point coordinates.
    Ec { x: String, y: String },
    /// A symmetric secret or another key type.
    Other,
}

/// One published key: its identifier, declared algorithm and material.
#[derive(Clone, Debug)]
pub struct SigningKey {
    pub kid: String,
    pub alg: Option<KeyAlg>,
    pub material: KeyMaterial,
}

/// The key set fetched from the identity provider. It is replaced whole on
/// refresh and never patched.
pub struct KeySetCache {
    keys: Vec<SigningKey>,
}

/// Index of the first key in `keys` whose identifier is `kid`, if any.
pub open spec fn first_with_kid(keys: Seq<SigningKey>, kid: Seq<char>) -> Option<int>
    decreases keys.len(),
{
    if keys.len() == 0 {
        None
    } else if keys.last().kid@ == kid {
        match first_with_kid(keys.drop_last(), kid) {
            Some(i) => Some(i),
            None => Some(keys.len() - 1),
        }
    } else {
        first_with_kid(keys.drop_last(), kid)
    }
}

impl KeySetCache {
    /// The keys currently cached, in the order they were published.
    pub closed spec fn keys(&self) -> Seq<SigningKey> {
        self.keys@
    }

    /// A cache holding exactly the given key set.
    pub fn new(keys: Vec<SigningKey>) -> (r: Self)
        ensures
            r.keys() == keys@,
    {
        KeySetCache { keys }
    }

    /// A cache that holds no key yet.
    pub fn empty() -> (r: Self)
        ensures
            r.keys() == Seq::<SigningKey>::empty(),
    {
        KeySetCache { keys: Vec::new() }
    }

    /// Replaces the whole key set with a freshly fetched one.
    pub fn refresh(&mut self, keys: Vec<SigningKey>)
        ensures
            final(self).keys() == keys@,
    {
        self.keys = keys;
    }

    /// Number of cached keys.
    pub fn len(&self) -> (r: usize)
        ensures
            r == self.keys().len(),
    {
        self.keys.len()
    }

    /// The first cached key whose identifier is `kid`.
    pub fn find(&self, kid: &String) -> (r: Option<&SigningKey>)
        ensures
            match first_with_kid(self.keys(), kid@) {
                Some(i) => r == Some(&self.keys()[i]),
                None => r is None,
            },
    {
        let mut i: usize = 0;
        while i < self.keys.len()
            invariant
                0 <= i <= self.keys@.len(),
                first_with_kid(self.keys@.subrange(0, i as int), kid@) is None,
            decreases self.keys@.len() - i,
        {
            proof {
                lemma_first_with_kid_step(self.keys@, i as int, kid@);
            }
            if self.keys[i].kid == *kid {
                proof {
                    lemma_first_with_kid_extends(self.keys@, i as int + 1, kid@);
                }
                return Some(&self.keys[i]);
            }
            i = i + 1;
        }
        proof {
            assert(self.keys@.subrange(0, i as int) =~= self.keys@);
        }
        None
    }
}

proof fn lemma_first_with_kid_step(keys: Seq<SigningKey>, i: int, kid: Seq<char>)
    requires
        0 <= i < keys.len(),
        first_with_kid(keys.subrange(0, i), kid) is None,
    ensures
        first_with_kid(keys.subrange(0, i + 1), kid) == (if keys[i].kid@ == kid {
            Some(i)
        } else {
            None::<int>
        }),
{
    assert(keys.subrange(0, i + 1).drop_last() =~= keys.subrange(0, i));
}

/// A first match in a prefix stays the first match in the whole sequence.
proof fn lemma_first_with_kid_extends(keys: Seq<SigningKey>, n: int, kid: Seq<char>)
    requires
        0 <= n <= keys.len(),
        first_with_kid(keys.subrange(0, n), kid) is Some,
    ensures
        first_with_kid(keys, kid) == first_with_kid(keys.subrange(0, n), kid),
    decreases keys.len() - n,
{
    if n < keys.len() {
        assert(keys.subrange(0, n + 1).drop_last() =~= keys.subrange(0, n));
        lemma_first_with_kid_extends(keys, n + 1, kid);
    } else {
        assert(keys.subrange(0, n) =~= keys);
    }
}

} // verus!
