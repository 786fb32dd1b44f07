//! The fixed-length secret produced by a Diffie-Hellman exchange.

use vstd::prelude::*;

verus! {

/// 32-byte secret produced only by a Diffie-Hellman exchange between a
/// secret key and a public key. Equality-comparable so that both parties of
/// a correct exchange can check they converged; never to be logged.
#[derive(Clone, Debug)]
pub struct SharedSecret {
    bytes: Vec<u8>,
}

impl View for SharedSecret {
    type V = Seq<u8>;

    closed spec fn view(&self) -> Seq<u8> {
        self.bytes@
    }
}

impl SharedSecret {
    /// Number of bytes of a shared secret.
    pub open spec fn size() -> nat {
        32
    }

    /// A well-formed shared secret holds exactly [`SharedSecret::size`] bytes.
    pub open spec fn wf(&self) -> bool {
        self@.len() == Self::size()
    }

    /// The all-zero value, which a degenerate exchange produces.
    pub open spec fn spec_zero() -> Seq<u8> {
        Seq::new(32, |i: int| 0u8)
    }

    pub(crate) fn new(bytes: Vec<u8>) -> (r: SharedSecret)
        requires
            bytes@.len() == 32,
        ensures
            r@ == bytes@,
            r.wf(),
    {
        SharedSecret { bytes }
    }

    /// The raw secret bytes, to seed a cipher.
    pub fn as_bytes(&self) -> (r: &Vec<u8>)
        ensures
            r@ == self@,
    {
        &self.bytes
    }

    /// Whether this is the degenerate (all-zero) secret that a low-order or
    /// identity peer point produces; such a secret must be rejected.
    pub fn is_degenerate(&self) -> (r: bool)
        requires
            self.wf(),
        ensures
            r <==> self@ == Self::spec_zero(),
    {
        let mut i: usize = 0;
        while i < self.bytes.len()
            invariant
                i <= self.bytes@.len(),
                forall|j: int| 0 <= j < i ==> self.bytes@[j] == 0u8,
            decreases self.bytes@.len() - i,
        {
            if self.bytes[i] != 0 {
                proof {
                    assert(self@[i as int] != 0u8);
                }
                return false;
            }
            i += 1;
        }
        proof {
            assert(self@ =~= Self::spec_zero());
        }
        true
    }
}

impl PartialEq for SharedSecret {
    fn eq(&self, other: &SharedSecret) -> (r: bool) {
        if self.bytes.len() != other.bytes.len() {
            return false;
        }
        let mut i: usize = 0;
        while i < self.bytes.len()
            invariant
                i <= self.bytes@.len(),
                self.bytes@.len() == other.bytes@.len(),
                forall|j: int| 0 <= j < i ==> self.bytes@[j] == other.bytes@[j],
            decreases self.bytes@.len() - i,
        {
            if self.bytes[i] != other.bytes[i] {
                return false;
            }
            i += 1;
        }
        proof {
            assert(self.bytes@ =~= other.bytes@);
        }
        true
    }
}

impl Eq for SharedSecret {

}

impl vstd::std_specs::cmp::PartialEqSpecImpl for SharedSecret {
    open spec fn obeys_eq_spec() -> bool {
        true
    }

    open spec fn eq_spec(&self, other: &SharedSecret) -> bool {
        self@ == other@
    }
}

} // verus!
