//! Model types for the asymmetric key pairs the store holds.
//!
//! The signature scheme itself is out of scope: a key is carried as plain
//! bytes, and a private key carries the public half it was generated with,
//! so that versioned export can match on it.

use crate::util::copy_bytes;
use vstd::prelude::*;

verus! {

/// The public half of a key pair, as plain bytes.
#[derive(Debug, PartialEq, Eq)]
pub struct PublicKey {
    pub bytes: Vec<u8>,
}

impl View for PublicKey {
    type V = Seq<u8>;

    open spec fn view(&self) -> Seq<u8> {
        self.bytes@
    }
}

impl PublicKey {
    pub fn new(bytes: Vec<u8>) -> (r: Self)
        ensures
            r@ == bytes@,
    {
        PublicKey { bytes }
    }
}

impl Clone for PublicKey {
    fn clone(&self) -> (r: Self)
        ensures
            r@ == self@,
    {
        PublicKey { bytes: copy_bytes(&self.bytes) }
    }
}

/// The mathematical content of a private key: its secret bytes and the
/// bytes of its public half.
pub struct PrivateKeyView {
    pub secret: Seq<u8>,
    pub public: Seq<u8>,
}

/// The private half of a key pair, together with its public half.
#[derive(Debug, PartialEq, Eq)]
pub struct PrivateKey {
    pub secret: Vec<u8>,
    pub public: PublicKey,
}

impl View for PrivateKey {
    type V = PrivateKeyView;

    open spec fn view(&self) -> PrivateKeyView {
        PrivateKeyView { secret: self.secret@, public: self.public@ }
    }
}

impl PrivateKey {
    pub fn new(secret: Vec<u8>, public: PublicKey) -> (r: Self)
        ensures
            r@ == (PrivateKeyView { secret: secret@, public: public@ }),
    {
        PrivateKey { secret, public }
    }

    /// The public half of this key pair.
    pub fn public_key(&self) -> (r: PublicKey)
        ensures
            r@ == self@.public,
    {
        self.public.clone()
    }
}

impl Clone for PrivateKey {
    fn clone(&self) -> (r: Self)
        ensures
            r@ == self@,
    {
        PrivateKey { secret: copy_bytes(&self.secret), public: self.public.clone() }
    }
}

} // verus!
