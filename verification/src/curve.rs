//! Membership in the Ed25519 curve.
//!
//! An Ed25519 public key is the compressed form of a curve point: the
//! y-coordinate in the low 255 bits, little-endian, and the sign of the
//! x-coordinate in the top bit.

use curve25519_dalek::edwards::CompressedEdwardsY;
use vstd::arithmetic::power2::pow2;
use vstd::prelude::*;

verus! {

/// The order of the field over which the curve is defined, 2^255 - 19.
pub open spec fn field_order() -> int {
    pow2(255) - 19
}

/// The number that a byte string encodes, least significant byte first.
pub open spec fn le_value(bytes: Seq<u8>) -> nat
    decreases bytes.len(),
{
    if bytes.len() == 0 {
        0
    } else {
        bytes[0] as nat + 256 * le_value(bytes.drop_first())
    }
}

/// The y-coordinate that a compressed point encodes.
pub open spec fn y_coordinate(bytes: Seq<u8>) -> int {
    (le_value(bytes) % pow2(255)) as int
}

/// The curve equation -x^2 + y^2 = 1 + d x^2 y^2 with d = -121665/121666,
/// multiplied by 121666 and taken in the field.
pub open spec fn on_curve(x: int, y: int) -> bool {
    (121666 * (y * y - x * x) - 121666 + 121665 * (x * x * y * y)) % field_order() == 0
}

/// The bytes are the compressed form of some point on the curve.
pub open spec fn is_curve_point(bytes: Seq<u8>) -> bool {
    exists|x: int| #[trigger] on_curve(x, y_coordinate(bytes))
}

/// Calls `CompressedEdwardsY::from_slice`, which takes exactly 32 bytes, and
/// `CompressedEdwardsY::decompress`, which gives a point exactly if the bytes
/// hold the y-coordinate of a curve point. `None` stands for a wrong length.
#[verifier::external_body]
fn decompresses(bytes: &[u8]) -> (result: Option<bool>)
    ensures
        result is Some <==> bytes@.len() == 32,
        result matches Some(on) ==> on == is_curve_point(bytes@),
{
    match CompressedEdwardsY::from_slice(bytes) {
        Ok(point) => Some(point.decompress().is_some()),
        Err(_) => None,
    }
}

/// Returns `true` if the 32-byte value is a valid point on the Ed25519 curve.
///
/// Falcon addresses must **not** lie on the curve, so that they can never
/// collide with the account of an Ed25519 key pair.
pub fn bytes_are_curve_point(bytes: &[u8; 32]) -> (on: bool)
    ensures
        on == is_curve_point(bytes@),
{
    match decompresses(bytes.as_slice()) {
        Some(on) => on,
        None => false,
    }
}

/// Bytes are read least significant first: the first byte counts once, and the
/// number that the rest encodes counts 256 times.
pub proof fn law_little_endian(first: u8, rest: Seq<u8>)
    ensures
        le_value(Seq::<u8>::empty()) == 0,
        le_value(seq![first] + rest) == first + 256 * le_value(rest),
{
    assert((seq![first] + rest).drop_first() =~= rest);
}

/// Bytes whose low 255 bits are the y-coordinate of a solution of the curve
/// equation modulo 2^255 - 19 are a curve point.
pub proof fn law_solution_is_a_curve_point(bytes: Seq<u8>, x: int, y: int)
    requires
        y == le_value(bytes) % pow2(255),
        (121666 * (y * y - x * x) - 121666 + 121665 * (x * x * y * y)) % (pow2(255) - 19) == 0,
    ensures
        is_curve_point(bytes),
{
    assert(on_curve(x, y_coordinate(bytes)));
}

/// The low 255 bits of a curve point are the y-coordinate of a solution of the
/// curve equation modulo 2^255 - 19.
pub proof fn law_curve_point_has_a_solution(bytes: Seq<u8>) -> (x: int)
    requires
        is_curve_point(bytes),
    ensures
        ({
            let y: int = (le_value(bytes) % pow2(255)) as int;
            (121666 * (y * y - x * x) - 121666 + 121665 * (x * x * y * y)) % (pow2(255) - 19) == 0
        }),
{
    choose|x: int| #[trigger] on_curve(x, y_coordinate(bytes))
}

} // verus!
