use vstd::prelude::*;

verus! {

/// The pixel transfer type tags of the graphics API (`GL_BYTE`,
/// `GL_UNSIGNED_BYTE`, `GL_SHORT`, `GL_UNSIGNED_SHORT`, `GL_INT`,
/// `GL_UNSIGNED_INT`).
pub const GL_BYTE: u32 = 0x1400;

pub const GL_UNSIGNED_BYTE: u32 = 0x1401;

pub const GL_SHORT: u32 = 0x1402;

pub const GL_UNSIGNED_SHORT: u32 = 0x1403;

pub const GL_INT: u32 = 0x1404;

pub const GL_UNSIGNED_INT: u32 = 0x1405;

/// The pixel format of every render texture: three channels, red, green and
/// blue, in that order (`GL_RGB`).
pub const GL_RGB: u32 = 0x1907;

/// An element type that a render texture can hold: its transfer type tag,
/// its width in bytes and its zero value.
pub trait RenderTextureType: Copy + Sized {
    spec fn spec_gl_type() -> u32;

    spec fn spec_byte_width() -> nat;

    spec fn spec_zero() -> Self;

    /// The transfer type tag the element is uploaded with.
    fn get_type() -> (r: u32)
        ensures
            r == Self::spec_gl_type(),
    ;

    /// The width of one element in bytes.
    fn byte_width() -> (r: usize)
        ensures
            r == Self::spec_byte_width(),
            1 <= r <= 4,
    ;

    /// The zero value every pixel channel starts from.
    fn zero() -> (r: Self)
        ensures
            r == Self::spec_zero(),
    ;
}

impl RenderTextureType for u8 {
    open spec fn spec_gl_type() -> u32 {
        GL_UNSIGNED_BYTE
    }

    open spec fn spec_byte_width() -> nat {
        1
    }

    open spec fn spec_zero() -> u8 {
        0
    }

    fn get_type() -> (r: u32) {
        GL_UNSIGNED_BYTE
    }

    fn byte_width() -> (r: usize) {
        1
    }

    fn zero() -> (r: u8) {
        0
    }
}

impl RenderTextureType for i8 {
    open spec fn spec_gl_type() -> u32 {
        GL_BYTE
    }

    open spec fn spec_byte_width() -> nat {
        1
    }

    open spec fn spec_zero() -> i8 {
        0
    }

    fn get_type() -> (r: u32) {
        GL_BYTE
    }

    fn byte_width() -> (r: usize) {
        1
    }

    fn zero() -> (r: i8) {
        0
    }
}

impl RenderTextureType for u16 {
    open spec fn spec_gl_type() -> u32 {
        GL_UNSIGNED_SHORT
    }

    open spec fn spec_byte_width() -> nat {
        2
    }

    open spec fn spec_zero() -> u16 {
        0
    }

    fn get_type() -> (r: u32) {
        GL_UNSIGNED_SHORT
    }

    fn byte_width() -> (r: usize) {
        2
    }

    fn zero() -> (r: u16) {
        0
    }
}

impl RenderTextureType for i16 {
    open spec fn spec_gl_type() -> u32 {
        GL_SHORT
    }

    open spec fn spec_byte_width() -> nat {
        2
    }

    open spec fn spec_zero() -> i16 {
        0
    }

    fn get_type() -> (r: u32) {
        GL_SHORT
    }

    fn byte_width() -> (r: usize) {
        2
    }

    fn zero() -> (r: i16) {
        0
    }
}

impl RenderTextureType for u32 {
    open spec fn spec_gl_type() -> u32 {
        GL_UNSIGNED_INT
    }

    open spec fn spec_byte_width() -> nat {
        4
    }

    open spec fn spec_zero() -> u32 {
        0
    }

    fn get_type() -> (r: u32) {
        GL_UNSIGNED_INT
    }

    fn byte_width() -> (r: usize) {
        4
    }

    fn zero() -> (r: u32) {
        0
    }
}

impl RenderTextureType for i32 {
    open spec fn spec_gl_type() -> u32 {
        GL_INT
    }

    open spec fn spec_byte_width() -> nat {
        4
    }

    open spec fn spec_zero() -> i32 {
        0
    }

    fn get_type() -> (r: u32) {
        GL_INT
    }

    fn byte_width() -> (r: usize) {
        4
    }

    fn zero() -> (r: i32) {
        0
    }
}

/// A type that holds the four channels of one pixel packed into one integer.
pub trait RenderTexturePackedType: Copy {

}

/// Four 8-bit channels packed as `a << 24 | r << 16 | g << 8 | b`.
#[derive(Clone, Copy, Debug, PartialEq, Eq, Structural)]
pub struct PackedU32(pub u32);

/// Four 16-bit channels packed as `a << 48 | r << 32 | g << 16 | b`.
#[derive(Clone, Copy, Debug, PartialEq, Eq, Structural)]
pub struct PackedU64(pub u64);

/// Four 32-bit channels packed as `a << 96 | r << 64 | g << 32 | b`.
#[derive(Clone, Copy, Debug, PartialEq, Eq, Structural)]
pub struct PackedU128(pub u128);

impl RenderTexturePackedType for PackedU32 {

}

impl RenderTexturePackedType for PackedU64 {

}

impl RenderTexturePackedType for PackedU128 {

}

/// `a, r, g, b` packed into 32 bits, eight to a channel.
pub open spec fn pack_u32(r: u32, g: u32, b: u32, a: u32) -> u32 {
    (a << 24u32) | (r << 16u32) | (g << 8u32) | b
}

/// `a, r, g, b` packed into 64 bits, sixteen to a channel.
pub open spec fn pack_u64(r: u64, g: u64, b: u64, a: u64) -> u64 {
    (a << 48u64) | (r << 32u64) | (g << 16u64) | b
}

/// `a, r, g, b` packed into 128 bits, thirty-two to a channel.
pub open spec fn pack_u128(r: u128, g: u128, b: u128, a: u128) -> u128 {
    (a << 96u128) | (r << 64u128) | (g << 32u128) | b
}

impl From<&[u8; 4]> for PackedU32 {
    fn from(val: &[u8; 4]) -> (r: PackedU32) {
        let (r, g, b, a) = (val[0] as u32, val[1] as u32, val[2] as u32, val[3] as u32);
        proof {
            assert(pack_u32(r, g, b, a) == a * 0x1000000 + r * 0x10000 + g * 0x100 + b) by (bit_vector)
                requires
                    r < 256 && g < 256 && b < 256 && a < 256,
            ;
        }
        PackedU32((a << 24u32) | (r << 16u32) | (g << 8u32) | b)
    }
}

impl vstd::std_specs::convert::FromSpecImpl<&[u8; 4]> for PackedU32 {
    open spec fn obeys_from_spec() -> bool {
        true
    }

    open spec fn from_spec(val: &[u8; 4]) -> PackedU32 {
        PackedU32(
            (val@[3] * 0x1000000 + val@[0] * 0x10000 + val@[1] * 0x100 + val@[2]) as u32,
        )
    }
}

impl From<&[u8; 3]> for PackedU32 {
    fn from(val: &[u8; 3]) -> (r: PackedU32) {
        let (r, g, b) = (val[0] as u32, val[1] as u32, val[2] as u32);
        proof {
            assert(((r << 16u32) | (g << 8u32) | b) == r * 0x10000 + g * 0x100 + b) by (bit_vector)
                requires
                    r < 256 && g < 256 && b < 256,
            ;
        }
        PackedU32((r << 16u32) | (g << 8u32) | b)
    }
}

impl vstd::std_specs::convert::FromSpecImpl<&[u8; 3]> for PackedU32 {
    open spec fn obeys_from_spec() -> bool {
        true
    }

    open spec fn from_spec(val: &[u8; 3]) -> PackedU32 {
        PackedU32((val@[0] * 0x10000 + val@[1] * 0x100 + val@[2]) as u32)
    }
}

/// Each channel gives its two's complement bits, u8 wide.
impl From<&[i8; 4]> for PackedU32 {
    fn from(val: &[i8; 4]) -> (r: PackedU32) {
        let (r, g, b, a) = (
            val[0] as u8 as u32,
            val[1] as u8 as u32,
            val[2] as u8 as u32,
            val[3] as u8 as u32,
        );
        proof {
            assert(pack_u32(r, g, b, a) == a * 0x1000000 + r * 0x10000 + g * 0x100 + b) by (bit_vector)
                requires
                    r < 256 && g < 256 && b < 256 && a < 256,
            ;
        }
        PackedU32((a << 24u32) | (r << 16u32) | (g << 8u32) | b)
    }
}

impl vstd::std_specs::convert::FromSpecImpl<&[i8; 4]> for PackedU32 {
    open spec fn obeys_from_spec() -> bool {
        true
    }

    open spec fn from_spec(val: &[i8; 4]) -> PackedU32 {
        PackedU32(
            ((val@[3] as u8) * 0x1000000 + (val@[0] as u8) * 0x10000 + (val@[1] as u8) * 0x100
                + (val@[2] as u8)) as u32,
        )
    }
}

impl From<&[u16; 4]> for PackedU64 {
    fn from(val: &[u16; 4]) -> (r: PackedU64) {
        let (r, g, b, a) = (val[0] as u64, val[1] as u64, val[2] as u64, val[3] as u64);
        proof {
            assert(pack_u64(r, g, b, a) == a * 0x1000000000000 + r * 0x100000000 + g * 0x10000 + b) by (bit_vector)
                requires
                    r < 65536 && g < 65536 && b < 65536 && a < 65536,
            ;
        }
        PackedU64((a << 48u64) | (r << 32u64) | (g << 16u64) | b)
    }
}

impl vstd::std_specs::convert::FromSpecImpl<&[u16; 4]> for PackedU64 {
    open spec fn obeys_from_spec() -> bool {
        true
    }

    open spec fn from_spec(val: &[u16; 4]) -> PackedU64 {
        PackedU64(
            (val@[3] * 0x1000000000000 + val@[0] * 0x100000000 + val@[1] * 0x10000 + val@[2]) as u64,
        )
    }
}

/// Each channel gives its two's complement bits, u16 wide.
impl From<&[i16; 4]> for PackedU64 {
    fn from(val: &[i16; 4]) -> (r: PackedU64) {
        let (r, g, b, a) = (
            val[0] as u16 as u64,
            val[1] as u16 as u64,
            val[2] as u16 as u64,
            val[3] as u16 as u64,
        );
        proof {
            assert(pack_u64(r, g, b, a) == a * 0x1000000000000 + r * 0x100000000 + g * 0x10000 + b) by (bit_vector)
                requires
                    r < 65536 && g < 65536 && b < 65536 && a < 65536,
            ;
        }
        PackedU64((a << 48u64) | (r << 32u64) | (g << 16u64) | b)
    }
}

impl vstd::std_specs::convert::FromSpecImpl<&[i16; 4]> for PackedU64 {
    open spec fn obeys_from_spec() -> bool {
        true
    }

    open spec fn from_spec(val: &[i16; 4]) -> PackedU64 {
        PackedU64(
            ((val@[3] as u16) * 0x1000000000000 + (val@[0] as u16) * 0x100000000 + (val@[1] as u16) * 0x10000
                + (val@[2] as u16)) as u64,
        )
    }
}

impl From<&[u32; 4]> for PackedU128 {
    fn from(val: &[u32; 4]) -> (r: PackedU128) {
        let (r, g, b, a) = (val[0] as u128, val[1] as u128, val[2] as u128, val[3] as u128);
        proof {
            assert(pack_u128(r, g, b, a) == a * 0x1000000000000000000000000 + r * 0x10000000000000000 + g * 0x100000000 + b) by (bit_vector)
                requires
                    r < 4294967296 && g < 4294967296 && b < 4294967296 && a < 4294967296,
            ;
        }
        PackedU128((a << 96u128) | (r << 64u128) | (g << 32u128) | b)
    }
}

impl vstd::std_specs::convert::FromSpecImpl<&[u32; 4]> for PackedU128 {
    open spec fn obeys_from_spec() -> bool {
        true
    }

    open spec fn from_spec(val: &[u32; 4]) -> PackedU128 {
        PackedU128(
            (val@[3] * 0x1000000000000000000000000 + val@[0] * 0x10000000000000000 + val@[1] * 0x100000000 + val@[2]) as u128,
        )
    }
}

/// Each channel gives its two's complement bits, u32 wide.
impl From<&[i32; 4]> for PackedU128 {
    fn from(val: &[i32; 4]) -> (r: PackedU128) {
        let (r, g, b, a) = (
            val[0] as u32 as u128,
            val[1] as u32 as u128,
            val[2] as u32 as u128,
            val[3] as u32 as u128,
        );
        proof {
            assert(pack_u128(r, g, b, a) == a * 0x1000000000000000000000000 + r * 0x10000000000000000 + g * 0x100000000 + b) by (bit_vector)
                requires
                    r < 4294967296 && g < 4294967296 && b < 4294967296 && a < 4294967296,
            ;
        }
        PackedU128((a << 96u128) | (r << 64u128) | (g << 32u128) | b)
    }
}

impl vstd::std_specs::convert::FromSpecImpl<&[i32; 4]> for PackedU128 {
    open spec fn obeys_from_spec() -> bool {
        true
    }

    open spec fn from_spec(val: &[i32; 4]) -> PackedU128 {
        PackedU128(
            ((val@[3] as u32) * 0x1000000000000000000000000 + (val@[0] as u32) * 0x10000000000000000 + (val@[1] as u32) * 0x100000000
                + (val@[2] as u32)) as u128,
        )
    }
}

} // verus!
