use ignis::{api_version, version_major, version_minor, version_packed, version_patch, Version};

#[test]
fn new_keeps_parts() {
    let v = Version::new(3, 4, 5);
    assert_eq!((v.major, v.minor, v.patch), (3, 4, 5));
}

#[test]
fn default_is_one_zero_zero() {
    assert_eq!(Version::default(), Version::new(1, 0, 0));
}

#[test]
fn api_version_is_zero_one_zero() {
    assert_eq!(api_version(), Version::new(0, 1, 0));
}

#[test]
fn packing_places_parts_at_their_bits() {
    assert_eq!(version_packed(1, 3, 0), 0x0040_3000);
    assert_eq!(version_packed(0, 0, 7), 7);
    assert_eq!(version_packed(255, 255, 255), 0x3FCF_F0FF);
    assert_eq!(version_packed(2, 1, 9), 2 * 4_194_304 + 4096 + 9);
}

#[test]
fn unpacking_reads_each_byte() {
    assert_eq!(version_major(0x0040_3000), 1);
    assert_eq!(version_minor(0x0040_3000), 3);
    assert_eq!(version_patch(0x0040_3000), 0);
    assert_eq!(version_major(u32::MAX), 255);
    assert_eq!(version_minor(u32::MAX), 255);
    assert_eq!(version_patch(u32::MAX), 255);
}

#[test]
fn from_u32_and_back() {
    let v = Version::from(0x0040_3000u32);
    assert_eq!(v, Version::new(1, 3, 0));
    let packed: u32 = Version::new(1, 3, 0).into();
    assert_eq!(packed, 0x0040_3000);
}

#[test]
fn pack_then_unpack_is_identity() {
    for (major, minor, patch) in [(0u8, 0u8, 0u8), (1, 2, 3), (255, 0, 255), (17, 255, 1), (255, 255, 255)] {
        let v = Version::new(major, minor, patch);
        let packed: u32 = v.into();
        assert_eq!(Version::from(packed), v);
    }
}

#[test]
fn unpack_then_pack_keeps_only_field_bits() {
    for packed in [0u32, 0x0040_3000, u32::MAX, 0x1234_5678, 0xC000_0F00] {
        let repacked: u32 = Version::from(packed).into();
        assert_eq!(repacked, packed & 0x3FCF_F0FF);
    }
    let canonical = 0x0040_3001u32;
    let repacked: u32 = Version::from(canonical).into();
    assert_eq!(repacked, canonical);
}

#[test]
fn packing_keeps_order() {
    let pairs = [
        (Version::new(1, 2, 3), Version::new(1, 3, 0)),
        (Version::new(0, 255, 255), Version::new(1, 0, 0)),
        (Version::new(2, 0, 4), Version::new(2, 0, 5)),
    ];
    for (a, b) in pairs {
        assert!(a < b);
        let pa: u32 = a.into();
        let pb: u32 = b.into();
        assert!(pa < pb);
    }
}

#[test]
fn tuple_and_array_conversions() {
    let v = Version::from((4u8, 5u8, 6u8));
    assert_eq!(v, Version::new(4, 5, 6));
    let t: (u8, u8, u8) = v.into();
    assert_eq!(t, (4, 5, 6));
    let w = Version::from([7u8, 8, 9]);
    assert_eq!(w, Version::new(7, 8, 9));
    let a: [u8; 3] = w.into();
    assert_eq!(a, [7, 8, 9]);
}
