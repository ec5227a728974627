use minigw::{
    PackedU128, PackedU32, PackedU64, RenderTextureType, GL_BYTE, GL_INT, GL_RGB, GL_SHORT,
    GL_UNSIGNED_BYTE, GL_UNSIGNED_INT, GL_UNSIGNED_SHORT,
};

#[test]
fn type_tags_match_the_graphics_api() {
    assert_eq!(GL_UNSIGNED_BYTE, gl::UNSIGNED_BYTE);
    assert_eq!(GL_UNSIGNED_SHORT, gl::UNSIGNED_SHORT);
    assert_eq!(GL_UNSIGNED_INT, gl::UNSIGNED_INT);
    assert_eq!(GL_BYTE, gl::BYTE);
    assert_eq!(GL_SHORT, gl::SHORT);
    assert_eq!(GL_INT, gl::INT);
    assert_eq!(GL_RGB, gl::RGB);
}

#[test]
fn element_type_table() {
    assert_eq!(<u8 as RenderTextureType>::get_type(), gl::UNSIGNED_BYTE);
    assert_eq!(<i8 as RenderTextureType>::get_type(), gl::BYTE);
    assert_eq!(<u16 as RenderTextureType>::get_type(), gl::UNSIGNED_SHORT);
    assert_eq!(<i16 as RenderTextureType>::get_type(), gl::SHORT);
    assert_eq!(<u32 as RenderTextureType>::get_type(), gl::UNSIGNED_INT);
    assert_eq!(<i32 as RenderTextureType>::get_type(), gl::INT);
    assert_eq!(<u8 as RenderTextureType>::byte_width(), 1);
    assert_eq!(<i16 as RenderTextureType>::byte_width(), 2);
    assert_eq!(<i32 as RenderTextureType>::byte_width(), 4);
    assert_eq!(<u16 as RenderTextureType>::zero(), 0);
}

#[test]
fn packs_u8_channels() {
    assert_eq!(PackedU32::from(&[0x11u8, 0x22, 0x33, 0x44]), PackedU32(0x4411_2233));
    assert_eq!(PackedU32::from(&[0x11u8, 0x22, 0x33]), PackedU32(0x0011_2233));
}

#[test]
fn packs_signed_channels_by_their_bits() {
    assert_eq!(PackedU32::from(&[1i8, 2, 3, 4]), PackedU32(0x0401_0203));
    assert_eq!(PackedU32::from(&[-1i8, 0, 0, 0]), PackedU32(0x00ff_0000));
    assert_eq!(PackedU32::from(&[0i8, 0, -1, 0]), PackedU32(0x0000_00ff));
    assert_eq!(PackedU32::from(&[0i8, -128, 0, -1]), PackedU32(0xff00_8000));
    assert_eq!(PackedU64::from(&[1i16, 2, 3, 4]), PackedU64(0x0004_0001_0002_0003));
    assert_eq!(PackedU64::from(&[-1i16, 0, 0, 0]), PackedU64(0x0000_ffff_0000_0000));
    assert_eq!(
        PackedU128::from(&[1i32, 2, 3, 4]),
        PackedU128(0x0000_0004_0000_0001_0000_0002_0000_0003)
    );
    assert_eq!(
        PackedU128::from(&[0i32, 0, -1, i32::MIN]),
        PackedU128(0x8000_0000_0000_0000_0000_0000_ffff_ffff)
    );
}

#[test]
fn packs_wide_channels() {
    assert_eq!(
        PackedU64::from(&[0xaaaau16, 0xbbbb, 0xcccc, 0xdddd]),
        PackedU64(0xdddd_aaaa_bbbb_cccc)
    );
    assert_eq!(
        PackedU128::from(&[1u32, 2, 3, u32::MAX]),
        PackedU128(0xffff_ffff_0000_0001_0000_0002_0000_0003)
    );
}
