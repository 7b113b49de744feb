//! The filesystem header, stored in the first block of the drive.
use vstd::prelude::*;

use crate::fs::release::FsRelease;
use crate::fs::MAGIC;

verus! {

/// The length of the header's `name` field, in bytes.
pub const NAME_LEN: usize = 16;

/// The number of reserved bytes at the end of the header.
pub const RESERVED_BYTES: usize = 472;

/// The number of bytes in a header (one block).
pub const HEADER_SIZE: usize = 512;

/// The raw bits of the release with day `day` and year `year`:
/// the years since 2025 in bits 10-15 and the day in bits 0-9.
pub open spec fn release_bits(day: u16, year: u16) -> u16 {
    ((((year - 2025) * 1024) % 65536) as u16) | day
}

/// The year (since 2025) component of release bits.
pub open spec fn release_year(bits: u16) -> u16 {
    bits >> 10u16
}

/// The day component of release bits.
pub open spec fn release_day(bits: u16) -> u16 {
    bits & 0x3FFu16
}

/// Encoding a year below 64 (after 2025) and a day below 1024, then reading them
/// back, gives the same year and day.
pub proof fn lemma_release_round_trip(day: u16, year: u16)
    requires
        2025 <= year < 2025 + 64,
        day < 1024,
    ensures
        release_year(release_bits(day, year)) == year - 2025,
        release_day(release_bits(day, year)) == day,
{
    let y = (year - 2025) as u16;
    assert(((((y * 1024) % 65536) as u16) | day) >> 10u16 == y) by (bit_vector)
        requires
            y < 64,
            day < 1024,
    ;
    assert(((((y * 1024) % 65536) as u16) | day) & 0x3FFu16 == day) by (bit_vector)
        requires
            y < 64,
            day < 1024,
    ;
}

/// Comparing releases by (year, day) is the same as comparing their raw bits.
pub proof fn lemma_release_order(a: u16, b: u16)
    ensures
        (release_year(b) > release_year(a) || (release_year(a) == release_year(b)
            && release_day(b) > release_day(a))) == (a < b),
{
    assert(((b >> 10u16) > (a >> 10u16) || ((a >> 10u16) == (b >> 10u16) && (b & 0x3FFu16) > (a
        & 0x3FFu16))) == (a < b)) by (bit_vector);
}

/// Little endian encoding of a 64 bit value.
pub open spec fn u64_le(v: u64) -> Seq<u8> {
    seq![
        v as u8,
        (v >> 8u64) as u8,
        (v >> 16u64) as u8,
        (v >> 24u64) as u8,
        (v >> 32u64) as u8,
        (v >> 40u64) as u8,
        (v >> 48u64) as u8,
        (v >> 56u64) as u8,
    ]
}

/// Reads a little endian 64 bit value from eight bytes.
pub open spec fn le_u64(b: Seq<u8>) -> u64 {
    (b[0] as u64) | ((b[1] as u64) << 8u64) | ((b[2] as u64) << 16u64) | ((b[3] as u64) << 24u64)
        | ((b[4] as u64) << 32u64) | ((b[5] as u64) << 40u64) | ((b[6] as u64) << 48u64) | ((
    b[7] as u64) << 56u64)
}

/// Splitting a 64 bit value into bytes and joining them gives it back.
pub proof fn lemma_u64_le_round_trip(v: u64)
    ensures
        le_u64(u64_le(v)) == v,
{
    let b = u64_le(v);
    let (b0, b1, b2, b3, b4, b5, b6, b7) = (b[0], b[1], b[2], b[3], b[4], b[5], b[6], b[7]);
    assert((b0 as u64) | ((b1 as u64) << 8u64) | ((b2 as u64) << 16u64) | ((b3 as u64) << 24u64)
        | ((b4 as u64) << 32u64) | ((b5 as u64) << 40u64) | ((b6 as u64) << 48u64) | ((
    b7 as u64) << 56u64) == v) by (bit_vector)
        requires
            b0 == v as u8,
            b1 == (v >> 8u64) as u8,
            b2 == (v >> 16u64) as u8,
            b3 == (v >> 24u64) as u8,
            b4 == (v >> 32u64) as u8,
            b5 == (v >> 40u64) as u8,
            b6 == (v >> 48u64) as u8,
            b7 == (v >> 56u64) as u8,
    ;
}

/// Joining eight bytes and splitting the result gives them back.
pub proof fn lemma_le_u64_round_trip(b: Seq<u8>)
    requires
        b.len() == 8,
    ensures
        u64_le(le_u64(b)) == b,
{
    let (b0, b1, b2, b3, b4, b5, b6, b7) = (b[0], b[1], b[2], b[3], b[4], b[5], b[6], b[7]);
    let v = le_u64(b);
    assert(v as u8 == b0 && (v >> 8u64) as u8 == b1 && (v >> 16u64) as u8 == b2 && (v >> 24u64)
        as u8 == b3 && (v >> 32u64) as u8 == b4 && (v >> 40u64) as u8 == b5 && (v >> 48u64) as u8
        == b6 && (v >> 56u64) as u8 == b7) by (bit_vector)
        requires
            v == (b0 as u64) | ((b1 as u64) << 8u64) | ((b2 as u64) << 16u64) | ((b3 as u64)
                << 24u64) | ((b4 as u64) << 32u64) | ((b5 as u64) << 40u64) | ((b6 as u64)
                << 48u64) | ((b7 as u64) << 56u64),
    ;
    assert(u64_le(v) =~= b);
}

/// The features available on a filesystem. Every bit pattern is kept.
#[derive(Debug, Clone, Copy, PartialEq, Eq, Structural)]
pub struct FsFeatures(u64);

impl View for FsFeatures {
    type V = u64;

    closed spec fn view(&self) -> u64 {
        self.0
    }
}

impl FsFeatures {
    /// No features.
    pub fn empty() -> (r: FsFeatures)
        ensures
            r@ == 0,
    {
        FsFeatures(0)
    }

    /// The filesystem is connected to a floppy drive.
    pub fn floppy() -> (r: FsFeatures)
        ensures
            r@ == 1,
    {
        FsFeatures(1)
    }

    /// Returns the raw bits of the features.
    pub fn bits(&self) -> (r: u64)
        ensures
            r == self@,
    {
        self.0
    }

    /// Creates a feature set from raw bits, keeping every bit.
    pub fn from_bits_retain(bits: u64) -> (r: FsFeatures)
        ensures
            r@ == bits,
    {
        FsFeatures(bits)
    }

    /// Returns `true` if every feature of `other` is set in `self`.
    pub fn contains(&self, other: FsFeatures) -> (r: bool)
        ensures
            r == (self@ & other@ == other@),
    {
        self.0 & other.0 == other.0
    }
}

/// The first block of the filesystem.
pub struct FilesystemHeader {
    /// The filesystem magic number, should be `0xFD SFK x86 x64` (0xFD53464B8664).
    pub magic: [u8; 6],
    /// When the filesystem was last updated.
    pub release: FsRelease,
    /// The features available on the filesystem.
    pub features: FsFeatures,
    /// The name of the filesystem.
    pub name: [u8; 16],
    /// The size of the filesystem in blocks.
    pub size: u64,
    /// Reserved to reach a size of 512 bytes, or one block.
    reserved: [u8; 472],
}

/// The abstract contents of a filesystem header.
pub struct HeaderView {
    pub magic: Seq<u8>,
    pub release: u16,
    pub features: u64,
    pub name: Seq<u8>,
    pub size: u64,
    pub reserved: Seq<u8>,
}

impl View for FilesystemHeader {
    type V = HeaderView;

    closed spec fn view(&self) -> HeaderView {
        HeaderView {
            magic: self.magic@,
            release: self.release@,
            features: self.features@,
            name: self.name@,
            size: self.size,
            reserved: self.reserved@,
        }
    }
}

/// The 512 bytes a header is stored as on the drive.
pub open spec fn header_bytes(h: HeaderView) -> Seq<u8> {
    h.magic + crate::fs::u16_le(h.release) + u64_le(h.features) + h.name + u64_le(h.size)
        + h.reserved
}

/// The header stored in 512 bytes.
pub open spec fn header_from_bytes(b: Seq<u8>) -> HeaderView {
    HeaderView {
        magic: b.subrange(0, 6),
        release: crate::fs::le_u16(b[6], b[7]),
        features: le_u64(b.subrange(8, 16)),
        name: b.subrange(16, 32),
        size: le_u64(b.subrange(32, 40)),
        reserved: b.subrange(40, 512),
    }
}

/// Reading a header from its bytes then writing it back gives the same bytes.
pub proof fn lemma_header_bytes_round_trip(b: Seq<u8>)
    requires
        b.len() == HEADER_SIZE,
    ensures
        header_bytes(header_from_bytes(b)) == b,
{
    let h = header_from_bytes(b);
    crate::fs::lemma_le_u16_round_trip(b[6], b[7]);
    lemma_le_u64_round_trip(b.subrange(8, 16));
    lemma_le_u64_round_trip(b.subrange(32, 40));
    assert(header_bytes(h) =~= b);
}

/// Writing a well sized header to bytes then reading it back gives the same header.
pub proof fn lemma_header_view_round_trip(h: HeaderView)
    requires
        h.magic.len() == 6,
        h.name.len() == NAME_LEN,
        h.reserved.len() == RESERVED_BYTES,
    ensures
        header_bytes(h).len() == HEADER_SIZE,
        header_from_bytes(header_bytes(h)) == h,
{
    let b = header_bytes(h);
    crate::fs::lemma_u16_le_round_trip(h.release);
    lemma_u64_le_round_trip(h.features);
    lemma_u64_le_round_trip(h.size);
    assert(b.subrange(0, 6) =~= h.magic);
    assert(b.subrange(8, 16) =~= u64_le(h.features));
    assert(b.subrange(16, 32) =~= h.name);
    assert(b.subrange(32, 40) =~= u64_le(h.size));
    assert(b.subrange(40, 512) =~= h.reserved);
}

/// Pushes the little endian bytes of `v` onto `out`.
fn push_u64(out: &mut Vec<u8>, v: u64)
    ensures
        final(out)@ == old(out)@ + u64_le(v),
{
    out.push(v as u8);
    out.push((v >> 8u64) as u8);
    out.push((v >> 16u64) as u8);
    out.push((v >> 24u64) as u8);
    out.push((v >> 32u64) as u8);
    out.push((v >> 40u64) as u8);
    out.push((v >> 48u64) as u8);
    out.push((v >> 56u64) as u8);
    assert(final(out)@ =~= old(out)@ + u64_le(v));
}

/// Reads a little endian 64 bit value from `bytes[off..off + 8]`.
fn read_u64(bytes: &[u8; 512], off: usize) -> (r: u64)
    requires
        off + 8 <= 512,
    ensures
        r == le_u64(bytes@.subrange(off as int, off + 8)),
{
    let r = (bytes[off] as u64) | ((bytes[off + 1] as u64) << 8u64) | ((bytes[off + 2] as u64)
        << 16u64) | ((bytes[off + 3] as u64) << 24u64) | ((bytes[off + 4] as u64) << 32u64) | ((
    bytes[off + 5] as u64) << 40u64) | ((bytes[off + 6] as u64) << 48u64) | ((bytes[off + 7] as u64)
        << 56u64);
    assert(forall|k: int| 0 <= k < 8 ==> #[trigger] bytes@.subrange(off as int, off + 8)[k] == bytes@[off + k]);
    r
}

impl FilesystemHeader {
    /// Creates a new header from the given fields, with the filesystem magic number.
    pub fn new(name: [u8; 16], day: u16, year: u16, size: u64, feats: FsFeatures) -> (r:
        FilesystemHeader)
        requires
            year >= 2025,
        ensures
            r@ == (HeaderView {
                magic: MAGIC@,
                release: release_bits(day, year),
                features: feats@,
                name: name@,
                size,
                reserved: Seq::new(RESERVED_BYTES as nat, |i: int| 0u8),
            }),
    {
        let r = FilesystemHeader {
            magic: MAGIC,
            release: FsRelease::new(day, year),
            features: feats,
            name,
            size,
            reserved: [0;472],
        };
        assert(r@.reserved =~= Seq::new(RESERVED_BYTES as nat, |i: int| 0u8));
        r
    }

    /// Whether the header starts with the filesystem magic number.
    pub fn has_magic(&self) -> (r: bool)
        ensures
            r == (self@.magic == MAGIC@),
    {
        let m = &self.magic;
        let r = m[0] == MAGIC[0] && m[1] == MAGIC[1] && m[2] == MAGIC[2] && m[3] == MAGIC[3]
            && m[4] == MAGIC[4] && m[5] == MAGIC[5];
        assert(r ==> m@ =~= MAGIC@);
        r
    }

    /// Converts an array of bytes into a header. Every bit pattern is a valid header.
    pub fn from_raw(bytes: [u8; 512]) -> (r: Self)
        ensures
            r@ == header_from_bytes(bytes@),
    {
        let ghost b = bytes@;
        let mut magic = [0u8;6];
        let mut i: usize = 0;
        while i < 6
            invariant
                0 <= i <= 6,
                b == bytes@,
                forall|j: int| 0 <= j < i ==> magic@[j] == b[j],
            decreases 6 - i,
        {
            magic[i] = bytes[i];
            i = i + 1;
        }
        let mut name = [0u8;16];
        let mut i: usize = 0;
        while i < 16
            invariant
                0 <= i <= 16,
                b == bytes@,
                forall|j: int| 0 <= j < i ==> name@[j] == b[16 + j],
            decreases 16 - i,
        {
            name[i] = bytes[16 + i];
            i = i + 1;
        }
        let mut reserved = [0u8;472];
        let mut i: usize = 0;
        while i < 472
            invariant
                0 <= i <= 472,
                b == bytes@,
                forall|j: int| 0 <= j < i ==> reserved@[j] == b[40 + j],
            decreases 472 - i,
        {
            reserved[i] = bytes[40 + i];
            i = i + 1;
        }
        let release = bytes[6] as u16 + (bytes[7] as u16) * 256;
        let r = FilesystemHeader {
            magic,
            release: FsRelease::from_bits(release),
            features: FsFeatures(read_u64(&bytes, 8)),
            name,
            size: read_u64(&bytes, 32),
            reserved,
        };
        proof {
            let w = header_from_bytes(b);
            assert(r@.magic =~= w.magic);
            assert(r@.name =~= w.name);
            assert(r@.reserved =~= w.reserved);
        }
        r
    }

    /// Returns a copy of the header's features.
    pub fn features(&self) -> (r: FsFeatures)
        ensures
            r@ == self@.features,
    {
        self.features
    }

    /// Returns a copy of the header's release.
    pub fn release(&self) -> (r: FsRelease)
        ensures
            r@ == self@.release,
    {
        self.release
    }

    /// Returns the 512 bytes the header is stored as on the drive.
    pub fn to_bytes(&self) -> (r: Vec<u8>)
        ensures
            r@ == header_bytes(self@),
            r@.len() == HEADER_SIZE,
    {
        let mut out: Vec<u8> = Vec::with_capacity(HEADER_SIZE);
        let mut i: usize = 0;
        while i < 6
            invariant
                0 <= i <= 6,
                out@ == self.magic@.take(i as int),
            decreases 6 - i,
        {
            out.push(self.magic[i]);
            assert(out@ =~= self.magic@.take(i + 1));
            i = i + 1;
        }
        assert(self.magic@.take(6) =~= self.magic@);
        let rel = self.release.bits();
        out.push((rel % 256) as u8);
        out.push((rel / 256) as u8);
        assert(out@ =~= self.magic@ + crate::fs::u16_le(self@.release));
        push_u64(&mut out, self.features.0);
        let ghost head = out@;
        let mut i: usize = 0;
        while i < 16
            invariant
                0 <= i <= 16,
                out@ == head + self.name@.take(i as int),
            decreases 16 - i,
        {
            out.push(self.name[i]);
            assert(out@ =~= head + self.name@.take(i + 1));
            i = i + 1;
        }
        assert(self.name@.take(16) =~= self.name@);
        push_u64(&mut out, self.size);
        let ghost head2 = out@;
        let mut i: usize = 0;
        while i < 472
            invariant
                0 <= i <= 472,
                out@ == head2 + self.reserved@.take(i as int),
            decreases 472 - i,
        {
            out.push(self.reserved[i]);
            assert(out@ =~= head2 + self.reserved@.take(i + 1));
            i = i + 1;
        }
        assert(self.reserved@.take(472) =~= self.reserved@);
        out
    }
}

impl crate::util::send::AsBytes for FilesystemHeader {
    open spec fn bytes_spec(&self) -> Seq<u8> {
        header_bytes(self@)
    }

    fn as_bytes(&self) -> (r: Vec<u8>) {
        self.to_bytes()
    }
}

} // verus!
