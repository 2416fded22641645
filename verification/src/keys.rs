//! The key material: one secret, held in the two roles of signing and
//! verifying.

use vstd::prelude::*;
use vstd::slice::slice_to_vec;

verus! {

/// The signing key and the verification key of one process. Both are made
/// from the same secret when the value is built and never change after that,
/// so a shared reference can be read from any number of handlers.
pub struct Keys {
    encoding: Vec<u8>,
    decoding: Vec<u8>,
}

impl Keys {
    #[verifier::type_invariant]
    spec fn well_formed(self) -> bool {
        self.encoding@.len() > 0 && self.decoding@ == self.encoding@
    }

    /// The secret that both keys were made from.
    pub closed spec fn secret(&self) -> Seq<u8> {
        self.encoding@
    }

    /// Makes both keys from a secret. An empty secret is turned down: there
    /// is no default to fall back to. Any other secret gives the keys.
    pub fn new(secret: &[u8]) -> (keys: Option<Keys>)
        ensures
            keys is Some <==> secret@.len() > 0,
            keys matches Some(k) ==> k.secret() == secret@,
    {
        if secret.len() == 0 {
            None
        } else {
            Some(Keys { encoding: slice_to_vec(secret), decoding: slice_to_vec(secret) })
        }
    }

    /// The key that tokens are signed with.
    pub fn signing_key(&self) -> (key: &[u8])
        ensures
            key@ == self.secret(),
            key@.len() > 0,
    {
        proof {
            use_type_invariant(self);
        }
        self.encoding.as_slice()
    }

    /// The key that signatures are checked with.
    pub fn verification_key(&self) -> (key: &[u8])
        ensures
            key@ == self.secret(),
            key@.len() > 0,
    {
        proof {
            use_type_invariant(self);
        }
        self.decoding.as_slice()
    }
}

} // verus!
