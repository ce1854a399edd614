use vstd::prelude::*;
use vstd::bytes::{spec_u16_to_le_bytes, spec_u32_to_le_bytes, u16_to_le_bytes, u32_to_le_bytes};

verus! {

// The engine stores every single-precision value by its raw 32-bit pattern.
// The logic of the engine never branches on such a value: it only composes
// them through ultraviolet, behind the trusted wrappers below. Where the
// outside computation uses only correctly-rounded IEEE operations (sums,
// products, square roots), the result is a function of the operands' bit
// patterns and an uninterpreted name pins it. Where it passes through a
// trigonometric function, whose precision the standard library leaves
// unspecified and allows to vary even between two calls, no such name is
// honest: those wrappers promise only what the source fixes, and the
// engine's contracts speak of the stored result, never of a recomputation.

/// The raw 32-bit pattern of the single-precision value one.
pub const ONE_BITS: u32 = 0x3F80_0000;

/// A two-component vector of raw 32-bit patterns.
#[derive(Clone, Copy, Debug, PartialEq, Eq, Structural)]
pub struct Vec2Bits {
    pub x: u32,
    pub y: u32,
}

impl View for Vec2Bits {
    type V = Seq<u32>;

    open spec fn view(&self) -> Seq<u32> {
        seq![self.x, self.y]
    }
}

/// A three-component vector of raw 32-bit patterns.
#[derive(Clone, Copy, Debug, PartialEq, Eq, Structural)]
pub struct Vec3Bits {
    pub x: u32,
    pub y: u32,
    pub z: u32,
}

impl View for Vec3Bits {
    type V = Seq<u32>;

    open spec fn view(&self) -> Seq<u32> {
        seq![self.x, self.y, self.z]
    }
}

/// A rotor (unit-quaternion equivalent) of raw 32-bit patterns:
/// the scalar part and the three bivector components.
#[derive(Clone, Copy, Debug, PartialEq, Eq, Structural)]
pub struct RotorBits {
    pub s: u32,
    pub xy: u32,
    pub xz: u32,
    pub yz: u32,
}

impl View for RotorBits {
    type V = Seq<u32>;

    open spec fn view(&self) -> Seq<u32> {
        seq![self.s, self.xy, self.xz, self.yz]
    }
}

/// A 4x4 homogeneous matrix of raw 32-bit patterns, column-major.
#[derive(Clone, Copy, Debug)]
pub struct Mat4Bits {
    pub words: [u32; 16],
}

impl View for Mat4Bits {
    type V = Seq<u32>;

    open spec fn view(&self) -> Seq<u32> {
        self.words@
    }
}

/// The little-endian byte image of a sequence of 32-bit words, four bytes
/// per word in word order: the layout GPU buffers receive.
pub open spec fn le_bytes_of_words(words: Seq<u32>) -> Seq<u8>
    decreases words.len(),
{
    if words.len() == 0 {
        Seq::empty()
    } else {
        le_bytes_of_words(words.drop_last()) + spec_u32_to_le_bytes(words.last())
    }
}

/// Serializes words into their little-endian byte image.
pub fn words_to_le_bytes(words: &Vec<u32>) -> (r: Vec<u8>)
    ensures
        r@ == le_bytes_of_words(words@),
{
    let mut out: Vec<u8> = Vec::new();
    let mut i: usize = 0;
    proof {
        assert(words@.take(0) =~= Seq::<u32>::empty());
    }
    while i < words.len()
        invariant
            i <= words@.len(),
            out@ == le_bytes_of_words(words@.take(i as int)),
        decreases words@.len() - i,
    {
        let mut word = u32_to_le_bytes(words[i]);
        proof {
            assert(words@.take(i as int + 1).drop_last() =~= words@.take(i as int));
            assert(words@.take(i as int + 1).last() == words@[i as int]);
        }
        out.append(&mut word);
        i = i + 1;
    }
    proof {
        assert(words@.take(words@.len() as int) =~= words@);
    }
    out
}

/// The little-endian byte image of a sequence of 16-bit values, two bytes
/// per value in order: the layout index buffers receive.
pub open spec fn le_bytes_of_shorts(shorts: Seq<u16>) -> Seq<u8>
    decreases shorts.len(),
{
    if shorts.len() == 0 {
        Seq::empty()
    } else {
        le_bytes_of_shorts(shorts.drop_last()) + spec_u16_to_le_bytes(shorts.last())
    }
}

/// Serializes 16-bit values into their little-endian byte image.
pub fn shorts_to_le_bytes(shorts: &Vec<u16>) -> (r: Vec<u8>)
    ensures
        r@ == le_bytes_of_shorts(shorts@),
{
    let mut out: Vec<u8> = Vec::new();
    let mut i: usize = 0;
    proof {
        assert(shorts@.take(0) =~= Seq::<u16>::empty());
    }
    while i < shorts.len()
        invariant
            i <= shorts@.len(),
            out@ == le_bytes_of_shorts(shorts@.take(i as int)),
        decreases shorts@.len() - i,
    {
        let mut short = u16_to_le_bytes(shorts[i]);
        proof {
            assert(shorts@.take(i as int + 1).drop_last() =~= shorts@.take(i as int));
            assert(shorts@.take(i as int + 1).last() == shorts@[i as int]);
        }
        out.append(&mut short);
        i = i + 1;
    }
    proof {
        assert(shorts@.take(shorts@.len() as int) =~= shorts@);
    }
    out
}

/// The geometric product of two rotors, a pure function of the operands.
pub uninterp spec fn rotor_product(a: Seq<u32>, b: Seq<u32>) -> Seq<u32>;

/// The product of two 4x4 matrices, a pure function of the operands.
pub uninterp spec fn mat4_product(a: Seq<u32>, b: Seq<u32>) -> Seq<u32>;

/// The homogeneous matrix of a similarity transform, a pure function of
/// its translation, rotation and uniform scale.
pub uninterp spec fn similarity_matrix(translation: Seq<u32>, rotation: Seq<u32>, scale: u32) -> Seq<u32>;

/// The right-handed look-at view matrix, a pure function of eye, target and up.
pub uninterp spec fn look_at_matrix(eye: Seq<u32>, target: Seq<u32>, up: Seq<u32>) -> Seq<u32>;

/// Relies on ultraviolet's `Rotor3` multiplication: the product of two
/// rotors depends on the operands' components alone.
#[verifier::external_body]
pub(crate) fn rotor_mul(a: &RotorBits, b: &RotorBits) -> (r: RotorBits)
    ensures
        r@ == rotor_product(a@, b@),
{
    let x: ultraviolet::Rotor3 = bytemuck::cast([a.s, a.xy, a.xz, a.yz]);
    let y: ultraviolet::Rotor3 = bytemuck::cast([b.s, b.xy, b.xz, b.yz]);
    let z = x * y;
    RotorBits { s: z.s.to_bits(), xy: z.bv.xy.to_bits(), xz: z.bv.xz.to_bits(), yz: z.bv.yz.to_bits() }
}

/// Relies on ultraviolet's `Mat4` multiplication: the product of two
/// matrices depends on the operands' entries alone.
#[verifier::external_body]
pub(crate) fn mat4_mul(a: &Mat4Bits, b: &Mat4Bits) -> (r: Mat4Bits)
    ensures
        r@ == mat4_product(a@, b@),
{
    let x: ultraviolet::Mat4 = bytemuck::cast(a.words);
    let y: ultraviolet::Mat4 = bytemuck::cast(b.words);
    let z = x * y;
    Mat4Bits { words: z.as_array().map(|v| v.to_bits()) }
}

/// Relies on ultraviolet's `Mat4::look_at`: the view matrix depends on
/// eye, target and up alone.
#[verifier::external_body]
pub(crate) fn look_at(eye: &Vec3Bits, target: &Vec3Bits, up: &Vec3Bits) -> (r: Mat4Bits)
    ensures
        r@ == look_at_matrix(eye@, target@, up@),
{
    let m = ultraviolet::Mat4::look_at(
        bytemuck::cast([eye.x, eye.y, eye.z]),
        bytemuck::cast([target.x, target.y, target.z]),
        bytemuck::cast([up.x, up.y, up.z]),
    );
    Mat4Bits { words: m.as_array().map(|v| v.to_bits()) }
}

/// Relies on ultraviolet's `projection::rh_yup::perspective_wgpu_dx` for
/// the projection matrix of the given vertical field of view, aspect ratio
/// (width over height) and near/far planes. The matrix passes through the
/// platform's tangent, whose precision the standard library leaves
/// unspecified, so two calls on equal arguments are not promised equal bit
/// patterns: the contract pins nothing of the result, and callers keep the
/// one value they were handed.
#[verifier::external_body]
pub(crate) fn perspective(fov: u32, width: u32, height: u32, near: u32, far: u32) -> (r: Mat4Bits)
    requires
        width > 0,
        height > 0,
{
    let wh: ultraviolet::Vec2 = From::from(ultraviolet::UVec2::new(width, height));
    let m = ultraviolet::projection::rh_yup::perspective_wgpu_dx(
        bytemuck::cast(fov),
        wh.x / wh.y,
        bytemuck::cast(near),
        bytemuck::cast(far),
    );
    Mat4Bits { words: m.as_array().map(|v| v.to_bits()) }
}

/// Relies on the standard library's single-precision `sin_cos` for the
/// point on the horizontal circle of the given radius at the given angle
/// in thousandths of a degree. The sine and cosine's precision is
/// unspecified and may differ between two calls, so the in-plane
/// components are not promised to be a function of the arguments; only
/// the elevation, which the body passes through unchanged, is pinned.
#[verifier::external_body]
pub(crate) fn orbit_point_at(angle_millideg: u32, radius: u32, elevation: u32) -> (r: Vec3Bits)
    requires
        angle_millideg < 360_000,
    ensures
        r.y == elevation,
{
    let md: ultraviolet::Vec2 = From::from(ultraviolet::UVec2::new(angle_millideg, 1000));
    let (sin_a, cos_a) = (md.x / md.y).to_radians().sin_cos();
    let rr: ultraviolet::Vec2 = bytemuck::cast([radius, radius]);
    Vec3Bits { x: (cos_a * rr.x).to_bits(), y: elevation, z: (sin_a * rr.x).to_bits() }
}

} // verus!
