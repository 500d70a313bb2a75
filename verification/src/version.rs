use vstd::prelude::*;

verus! {

/// Bit offset of the major component inside a packed version.
pub const MAJOR_SHIFT: u32 = 22;

/// Bit offset of the minor component inside a packed version.
pub const MINOR_SHIFT: u32 = 12;

/// The packed form of a version: `major` at bit 22, `minor` at bit 12 and
/// `patch` at bit 0, the layout of a Vulkan version number.
pub open spec fn packed_value(major: u8, minor: u8, patch: u8) -> int {
    major as int * 0x40_0000 + minor as int * 0x1000 + patch as int
}

/// The major component of a packed version: the byte at bit 22.
pub open spec fn packed_major(packed: u32) -> u8 {
    ((packed as int / 0x40_0000) % 0x100) as u8
}

/// The minor component of a packed version: the byte at bit 12.
pub open spec fn packed_minor(packed: u32) -> u8 {
    ((packed as int / 0x1000) % 0x100) as u8
}

/// The patch component of a packed version: the lowest byte.
pub open spec fn packed_patch(packed: u32) -> u8 {
    (packed as int % 0x100) as u8
}

/// Packs a version into a `u32`.
pub fn version_packed(major: u8, minor: u8, patch: u8) -> (packed: u32)
    ensures
        packed as int == packed_value(major, minor, patch),
        packed as int == major as int * 0x40_0000 + minor as int * 0x1000 + patch as int,
{
    let packed = (major as u32) << MAJOR_SHIFT | (minor as u32) << MINOR_SHIFT | (patch as u32);
    assert(((major as u32) << 22u32 | (minor as u32) << 12u32 | (patch as u32)) as int
        == major as int * 0x40_0000 + minor as int * 0x1000 + patch as int) by (bit_vector);
    packed
}

/// The major component of a packed version.
pub fn version_major(packed: u32) -> (major: u8)
    ensures
        major == packed_major(packed),
        major as int == (packed as int / 0x40_0000) % 0x100,
{
    assert((packed >> 22u32) as u8 == ((packed as int / 0x40_0000) % 0x100) as u8) by (bit_vector);
    (packed >> MAJOR_SHIFT) as u8
}

/// The minor component of a packed version.
pub fn version_minor(packed: u32) -> (minor: u8)
    ensures
        minor == packed_minor(packed),
        minor as int == (packed as int / 0x1000) % 0x100,
{
    assert((packed >> 12u32) as u8 == ((packed as int / 0x1000) % 0x100) as u8) by (bit_vector);
    (packed >> MINOR_SHIFT) as u8
}

/// The patch component of a packed version.
pub fn version_patch(packed: u32) -> (patch: u8)
    ensures
        patch == packed_patch(packed),
        patch as int == packed as int % 0x100,
{
    assert(packed as u8 == (packed as int % 0x100) as u8) by (bit_vector);
    packed as u8
}


/// A three-part version number, `major.minor.patch`, each part a byte.
#[derive(Clone, Copy, PartialEq, Eq, Structural, PartialOrd, Ord, Hash, Debug)]
pub struct Version {
    pub major: u8,
    pub minor: u8,
    pub patch: u8,
}

/// The version of this library's API, 0.1.0.
pub fn api_version() -> (version: Version)
    ensures
        version == (Version { major: 0, minor: 1, patch: 0 }),
{
    Version { major: 0, minor: 1, patch: 0 }
}

impl Version {
    /// A version made of the three given parts.
    pub fn new(major: u8, minor: u8, patch: u8) -> (version: Self)
        ensures
            version.major == major,
            version.minor == minor,
            version.patch == patch,
    {
        Self { major, minor, patch }
    }

    /// The value this version packs into.
    pub open spec fn packed(self) -> int {
        packed_value(self.major, self.minor, self.patch)
    }

    /// The version a packed `u32` unpacks into.
    pub open spec fn unpacked(packed: u32) -> Version {
        Version { major: packed_major(packed), minor: packed_minor(packed), patch: packed_patch(packed) }
    }
}

/// The mask of the bits of a `u32` that a packed version uses.
pub open spec fn packed_bits_mask() -> u32 {
    0x3FCF_F0FF
}

/// `a` comes before `b`: majors compare first, then minors, then patches.
pub open spec fn version_precedes(a: Version, b: Version) -> bool {
    ||| a.major < b.major
    ||| a.major == b.major && a.minor < b.minor
    ||| a.major == b.major && a.minor == b.minor && a.patch < b.patch
}

/// Packing a version and unpacking the result gives the version back; the
/// packed value fits in a `u32`.
pub proof fn lemma_unpack_of_pack(version: Version)
    ensures
        0 <= version.packed() <= u32::MAX,
        Version::unpacked(version.packed() as u32) == version,
{
    let major = version.major;
    let minor = version.minor;
    let patch = version.patch;
    assert(((major as int) * 0x40_0000 + (minor as int) * 0x1000 + (patch as int)) / 0x40_0000 % 0x100 == major as int
        && ((major as int) * 0x40_0000 + (minor as int) * 0x1000 + (patch as int)) / 0x1000 % 0x100 == minor as int
        && ((major as int) * 0x40_0000 + (minor as int) * 0x1000 + (patch as int)) % 0x100 == patch as int
        && (major as int) * 0x40_0000 + (minor as int) * 0x1000 + (patch as int) <= 0x3FCF_F0FF) by (bit_vector);
}

/// Unpacking a `u32` and packing the result keeps exactly the bits of the
/// `u32` that hold the three parts and clears the others.
pub proof fn lemma_pack_of_unpack(packed: u32)
    ensures
        Version::unpacked(packed).packed() == (packed & packed_bits_mask()) as int,
{
    assert((packed as int / 0x40_0000 % 0x100) * 0x40_0000 + (packed as int / 0x1000 % 0x100) * 0x1000
        + packed as int % 0x100 == (packed & 0x3FCF_F0FFu32) as int) by (bit_vector);
}

/// A `u32` whose unused bits are clear comes back unchanged from unpacking
/// and packing.
pub proof fn lemma_pack_of_unpack_canonical(packed: u32)
    requires
        packed & !packed_bits_mask() == 0,
    ensures
        Version::unpacked(packed).packed() == packed as int,
{
    lemma_pack_of_unpack(packed);
    assert(packed & !0x3FCF_F0FFu32 == 0 ==> packed & 0x3FCF_F0FFu32 == packed) by (bit_vector);
}

/// Packing keeps the order of versions: one version comes before another
/// exactly when its packed value is smaller, and two versions are equal
/// exactly when their packed values are.
pub proof fn lemma_packed_order(a: Version, b: Version)
    ensures
        version_precedes(a, b) <==> a.packed() < b.packed(),
        a == b <==> a.packed() == b.packed(),
{
    lemma_unpack_of_pack(a);
    lemma_unpack_of_pack(b);
}

/// Converting a version to its parts, as a tuple or as an array, and back
/// gives the version back.
pub proof fn lemma_parts_round_trip(version: Version)
    ensures
        <Version as vstd::std_specs::convert::FromSpec<(u8, u8, u8)>>::from_spec(
            <(u8, u8, u8) as vstd::std_specs::convert::FromSpec<Version>>::from_spec(version),
        ) == version,
        <Version as vstd::std_specs::convert::FromSpec<[u8; 3]>>::from_spec(
            <[u8; 3] as vstd::std_specs::convert::FromSpec<Version>>::from_spec(version),
        ) == version,
{
}

/// The conversions between a version and its parts are positional: the
/// first part is the major, the second the minor, the third the patch, in
/// both directions and for tuples as for arrays.
pub proof fn lemma_parts_are_positional(a: u8, b: u8, c: u8, version: Version)
    ensures
        <Version as vstd::std_specs::convert::FromSpec<(u8, u8, u8)>>::from_spec((a, b, c))
            == (Version { major: a, minor: b, patch: c }),
        <(u8, u8, u8) as vstd::std_specs::convert::FromSpec<Version>>::from_spec(version)
            == (version.major, version.minor, version.patch),
        <Version as vstd::std_specs::convert::FromSpec<[u8; 3]>>::from_spec([a, b, c])
            == (Version { major: a, minor: b, patch: c }),
        <[u8; 3] as vstd::std_specs::convert::FromSpec<Version>>::from_spec(version)@
            == seq![version.major, version.minor, version.patch],
{
    assert([a, b, c]@ == seq![a, b, c]);
}

impl Default for Version {
    /// Version 1.0.0.
    fn default() -> (version: Self)
        ensures
            version == (Version { major: 1, minor: 0, patch: 0 }),
    {
        Self { major: 1, minor: 0, patch: 0 }
    }
}

impl From<u32> for Version {
    fn from(packed: u32) -> (version: Self)
        ensures
            version.major as int == (packed as int / 0x40_0000) % 0x100,
            version.minor as int == (packed as int / 0x1000) % 0x100,
            version.patch as int == packed as int % 0x100,
    {
        Self {
            major: version_major(packed),
            minor: version_minor(packed),
            patch: version_patch(packed),
        }
    }
}

impl vstd::std_specs::convert::FromSpecImpl<u32> for Version {
    open spec fn obeys_from_spec() -> bool {
        true
    }

    open spec fn from_spec(packed: u32) -> Version {
        Version::unpacked(packed)
    }
}

impl From<Version> for u32 {
    fn from(version: Version) -> (packed: Self)
        ensures
            packed as int == version.major as int * 0x40_0000 + version.minor as int * 0x1000 + version.patch as int,
    {
        version_packed(version.major, version.minor, version.patch)
    }
}

impl vstd::std_specs::convert::FromSpecImpl<Version> for u32 {
    open spec fn obeys_from_spec() -> bool {
        true
    }

    open spec fn from_spec(version: Version) -> u32 {
        version.packed() as u32
    }
}

impl From<(u8, u8, u8)> for Version {
    fn from(parts: (u8, u8, u8)) -> (version: Self)
        ensures
            version.major == parts.0,
            version.minor == parts.1,
            version.patch == parts.2,
    {
        Self { major: parts.0, minor: parts.1, patch: parts.2 }
    }
}

impl vstd::std_specs::convert::FromSpecImpl<(u8, u8, u8)> for Version {
    open spec fn obeys_from_spec() -> bool {
        true
    }

    open spec fn from_spec(parts: (u8, u8, u8)) -> Version {
        Version { major: parts.0, minor: parts.1, patch: parts.2 }
    }
}

impl From<Version> for (u8, u8, u8) {
    fn from(version: Version) -> (parts: Self)
        ensures
            parts.0 == version.major,
            parts.1 == version.minor,
            parts.2 == version.patch,
    {
        (version.major, version.minor, version.patch)
    }
}

impl vstd::std_specs::convert::FromSpecImpl<Version> for (u8, u8, u8) {
    open spec fn obeys_from_spec() -> bool {
        true
    }

    open spec fn from_spec(version: Version) -> (u8, u8, u8) {
        (version.major, version.minor, version.patch)
    }
}

impl From<[u8; 3]> for Version {
    fn from(parts: [u8; 3]) -> (version: Self)
        ensures
            version.major == parts@[0],
            version.minor == parts@[1],
            version.patch == parts@[2],
    {
        Self { major: parts[0], minor: parts[1], patch: parts[2] }
    }
}

impl vstd::std_specs::convert::FromSpecImpl<[u8; 3]> for Version {
    open spec fn obeys_from_spec() -> bool {
        true
    }

    open spec fn from_spec(parts: [u8; 3]) -> Version {
        Version { major: parts@[0], minor: parts@[1], patch: parts@[2] }
    }
}

impl From<Version> for [u8; 3] {
    fn from(version: Version) -> (parts: Self)
        ensures
            parts@ == seq![version.major, version.minor, version.patch],
    {
        [version.major, version.minor, version.patch]
    }
}

impl vstd::std_specs::convert::FromSpecImpl<Version> for [u8; 3] {
    open spec fn obeys_from_spec() -> bool {
        true
    }

    open spec fn from_spec(version: Version) -> [u8; 3] {
        [version.major, version.minor, version.patch]
    }
}

} // verus!
