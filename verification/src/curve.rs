//! The named curves the signature engine supports, and their serialized
//! scalar and signature widths.

use vstd::prelude::*;

verus! {

/// A supported named elliptic curve.
///
/// A curve fixes the scalar width (and with it the signature width) and the
/// digest that the engine binds into each signature.
#[derive(Clone, Copy, PartialEq, Eq, Structural)]
pub enum Curve {
    P256,
    P384,
}

impl Curve {
    /// Width in bytes of one serialized scalar: a private key, or one half
    /// of a signature.
    pub open spec fn spec_scalar_size(self) -> nat {
        match self {
            Curve::P256 => 32,
            Curve::P384 => 48,
        }
    }

    pub fn scalar_size(&self) -> (n: usize)
        ensures
            n == self.spec_scalar_size(),
    {
        match self {
            Curve::P256 => 32,
            Curve::P384 => 48,
        }
    }

    /// Width in bytes of a serialized signature: the two scalars r and s
    /// side by side.
    pub open spec fn spec_signature_size(self) -> nat {
        2 * self.spec_scalar_size()
    }

    pub fn signature_size(&self) -> (n: usize)
        ensures
            n == self.spec_signature_size(),
    {
        2 * self.scalar_size()
    }
}

} // verus!
