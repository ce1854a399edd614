use vstd::prelude::*;
use crate::math::{Mat4Bits, ONE_BITS, RotorBits, Vec3Bits, rotor_mul, rotor_product, similarity_matrix};

verus! {

/// A similarity transform: a translation, a rotation and a uniform scale,
/// each component held as a raw 32-bit pattern.
///
/// The identity transform translates by the zero vector, rotates by the
/// identity rotor and scales by one.
#[derive(Clone, Copy, Debug, PartialEq, Eq, Structural)]
pub struct Transform {
    pub translation: Vec3Bits,
    pub rotation: RotorBits,
    pub scale: u32,
}

impl Transform {
    /// The identity transform as a value.
    pub open spec fn identity_spec() -> Transform {
        Transform {
            translation: Vec3Bits { x: 0, y: 0, z: 0 },
            rotation: RotorBits { s: ONE_BITS, xy: 0, xz: 0, yz: 0 },
            scale: ONE_BITS,
        }
    }

    /// Returns the identity transform.
    pub fn identity() -> (r: Transform)
        ensures
            r == Transform::identity_spec(),
    {
        Transform {
            translation: Vec3Bits { x: 0, y: 0, z: 0 },
            rotation: RotorBits { s: ONE_BITS, xy: 0, xz: 0, yz: 0 },
            scale: ONE_BITS,
        }
    }

    /// Left-multiplies the stored rotation by `delta`, so that the new
    /// rotation performs the old rotation first and `delta` after it.
    /// The translation and the scale are untouched.
    pub fn rotate_by(&mut self, delta: &RotorBits)
        ensures
            final(self).rotation@ == rotor_product(delta@, old(self).rotation@),
            final(self).translation == old(self).translation,
            final(self).scale == old(self).scale,
    {
        self.rotation = rotor_mul(delta, &self.rotation);
    }

    /// The homogeneous matrix of this transform, composed as translation
    /// after rotation after scale (the standard similarity order).
    pub fn to_matrix(&self) -> (r: Mat4Bits)
        ensures
            r@ == similarity_matrix(self.translation@, self.rotation@, self.scale),
    {
        similarity_to_matrix(self)
    }
}

impl Default for Transform {
    /// Returns the identity transform.
    fn default() -> (r: Transform)
        ensures
            r == Transform::identity_spec(),
    {
        Transform::identity()
    }
}

/// Relies on ultraviolet's `Similarity3::into_homogeneous_matrix`: the
/// homogeneous matrix of a similarity, translation applied last and scale
/// first, depending on the transform's components alone.
#[verifier::external_body]
fn similarity_to_matrix(t: &Transform) -> (r: Mat4Bits)
    ensures
        r@ == similarity_matrix(t.translation@, t.rotation@, t.scale),
{
    let s = ultraviolet::Similarity3 {
        translation: bytemuck::cast([t.translation.x, t.translation.y, t.translation.z]),
        rotation: bytemuck::cast([t.rotation.s, t.rotation.xy, t.rotation.xz, t.rotation.yz]),
        scale: bytemuck::cast(t.scale),
    };
    let m = s.into_homogeneous_matrix();
    Mat4Bits { words: m.as_array().map(|v| v.to_bits()) }
}

/// Two rotation deltas applied one after the other accumulate as the nested
/// rotor product: the delta applied second stands on the left. The order is
/// what makes a fixed spin per tick deterministic; whether the nested product
/// equals the once-composed product is a question of rounding in the rotor
/// components, which no exact statement over raw patterns can settle.
pub proof fn lemma_rotate_by_accumulates(r0: Seq<u32>, r1: Seq<u32>, r2: Seq<u32>, after_first: Seq<u32>, after_second: Seq<u32>)
    requires
        after_first == rotor_product(r1, r0),
        after_second == rotor_product(r2, after_first),
    ensures
        after_second == rotor_product(r2, rotor_product(r1, r0)),
{
}

} // verus!
