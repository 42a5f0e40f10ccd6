//! JSON Web Keys: the public keys that the identity provider signs its
//! tokens with.

use vstd::prelude::*;
use crate::text::str_equal;

verus! {

/// One RSA public key of the identity provider, as published in its JWKS.
#[derive(Debug, Clone)]
pub struct Jwk {
    pub alg: String,
    pub e: String,
    pub kid: String,
    pub kty: String,
    pub n: String,
    pub token_use: String,
}

/// A JSON Web Key Set.
#[derive(Debug, Clone)]
pub struct JwkSet {
    pub keys: Vec<Jwk>,
}

/// `i` is the first position in `keys` of a key with id `kid`.
pub open spec fn first_key_with_id(keys: Seq<Jwk>, kid: Seq<char>, i: int) -> bool {
    &&& 0 <= i < keys.len()
    &&& keys[i].kid@ == kid
    &&& forall|j: int| 0 <= j < i ==> keys[j].kid@ != kid
}

impl JwkSet {
    /// The first key whose id is `kid`, if any.
    pub fn find_key(&self, kid: &str) -> (res: Option<&Jwk>)
        ensures
            match res {
                Some(k) => exists|i: int| first_key_with_id(self.keys@, kid@, i) && self.keys@[i] == *k,
                None => forall|i: int| 0 <= i < self.keys@.len() ==> self.keys@[i].kid@ != kid@,
            },
    {
        let mut i: usize = 0;
        while i < self.keys.len()
            invariant
                i <= self.keys@.len(),
                forall|j: int| 0 <= j < i ==> self.keys@[j].kid@ != kid@,
            decreases self.keys@.len() - i,
        {
            if str_equal(self.keys[i].kid.as_str(), kid) {
                assert(first_key_with_id(self.keys@, kid@, i as int));
                return Some(&self.keys[i]);
            }
            i = i + 1;
        }
        None
    }
}

} // verus!
