//! Sunflower's floppy filesystem: block pointers, inodes and their on-disk encoding.
//!
//! Filesystem layout (blocks are 512 bytes long):
//!  - Block 0 - Filesystem header
//!  - Block 1-35 - Inode table (four inodes per block)
//!  - Block 36... - File data used by inodes
use vstd::prelude::*;

pub mod header;
pub mod init;
pub mod release;
pub mod table;

verus! {

/// The filesystem magic number, `0xFD SFK x86 x64`.
pub const MAGIC: [u8; 6] = [0xFD, 0x53, 0x46, 0x4B, 0x86, 0x64];

/// The number of usable inodes in the inode table.
pub const INODES: usize = 140;

/// The linear block address of the start of the inode table.
pub const INODE_START: u64 = 1;

/// The linear block address of the start of blocks usable by inode meta,
/// `INODE_START + INODES / 4`.
pub const BLOCK_START: u64 = 36;

/// The number of bytes in a block.
pub const BLOCK_SIZE: usize = 512;

/// The number of bytes an inode takes up on the drive.
pub const INODE_SIZE: usize = 128;

/// The number of dual block pointers stored in an inode.
pub const INODE_PTRS: usize = 24;

/// The number of reserved bytes at the end of an inode.
pub const INODE_RESERVED: usize = 49;

/// The largest value a [`BlockPtr`] can hold (`2^12`).
pub const BLOCK_PTR_MAX: u16 = 4096;

/// The number of blocks the block bitmap tracks (`2^12`), pointers `0` to `2^12 - 1`;
/// it is also the number of values a pointer in a [`DualBlockPtr`] can take.
pub const BLOCK_COUNT: u16 = 4096;

// ---------------------------------------------------------------------------
// Specifications
// ---------------------------------------------------------------------------

/// The value kept by `BlockPtr::new(ptr)`: null for zero, truncated to `2^12`.
pub open spec fn block_ptr_value(ptr: u16) -> Option<u16> {
    if ptr == 0 {
        None
    } else if ptr < BLOCK_PTR_MAX {
        Some(ptr)
    } else {
        Some(BLOCK_PTR_MAX)
    }
}

/// A nullable pointer value as an integer, where null is zero.
pub open spec fn nullable(v: Option<u16>) -> u16 {
    match v {
        Some(x) => x,
        None => 0,
    }
}

/// The first 12 bit pointer stored in the three bytes of a dual pointer.
pub open spec fn dual_first(b: (u8, u8, u8)) -> int {
    b.0 * 16 + b.1 / 16
}

/// The second 12 bit pointer stored in the three bytes of a dual pointer.
pub open spec fn dual_second(b: (u8, u8, u8)) -> int {
    (b.1 % 16) * 256 + b.2
}

/// The three bytes storing the pointers `fst` and `snd`, keeping their low 12 bits
/// (the top byte of `fst` is truncated to eight bits).
pub open spec fn dual_encoding(fst: u16, snd: u16) -> (u8, u8, u8) {
    (((fst / 16) % 256) as u8, ((fst % 16) * 16 + (snd / 256) % 16) as u8, (snd % 256) as u8)
}

/// Little endian encoding of a 16 bit value.
pub open spec fn u16_le(v: u16) -> Seq<u8> {
    seq![(v % 256) as u8, (v / 256) as u8]
}

/// Reads a little endian 16 bit value.
pub open spec fn le_u16(lo: u8, hi: u8) -> u16 {
    (lo + hi * 256) as u16
}

/// The bytes of a sequence of dual pointers, three bytes each.
pub open spec fn dual_seq_bytes(blocks: Seq<(u8, u8, u8)>) -> Seq<u8> {
    Seq::new(
        (blocks.len() * 3) as nat,
        |i: int|
            {
                let d = blocks[i / 3];
                if i % 3 == 0 {
                    d.0
                } else if i % 3 == 1 {
                    d.1
                } else {
                    d.2
                }
            },
    )
}

/// The abstract contents of an inode.
pub struct INodeView {
    pub mode: u16,
    pub links: u8,
    pub size: u16,
    pub blocks: Seq<(u8, u8, u8)>,
    pub parent: Option<u16>,
    pub reserved: Seq<u8>,
}

/// The 128 bytes an inode is stored as on the drive.
pub open spec fn inode_bytes(v: INodeView) -> Seq<u8> {
    u16_le(v.mode) + seq![v.links] + u16_le(v.size) + dual_seq_bytes(v.blocks) + u16_le(
        nullable(v.parent),
    ) + v.reserved
}

/// The inode stored in 128 bytes.
pub open spec fn inode_from_bytes(b: Seq<u8>) -> INodeView {
    INodeView {
        mode: le_u16(b[0], b[1]),
        links: b[2],
        size: le_u16(b[3], b[4]),
        blocks: Seq::new(INODE_PTRS as nat, |k: int| (b[5 + 3 * k], b[6 + 3 * k], b[7 + 3 * k])),
        parent: if le_u16(b[77], b[78]) == 0 {
            None
        } else {
            Some(le_u16(b[77], b[78]))
        },
        reserved: b.subrange(79, 128),
    }
}

/// Two inodes are equal when all fields besides the reserved bytes are.
pub open spec fn inode_eq(a: INodeView, b: INodeView) -> bool {
    &&& a.mode == b.mode
    &&& a.links == b.links
    &&& a.size == b.size
    &&& a.blocks == b.blocks
    &&& a.parent == b.parent
}

/// A well formed inode view: the right number of block pointers and reserved bytes,
/// and a non-zero parent if there is one.
pub open spec fn inode_view_wf(v: INodeView) -> bool {
    &&& v.blocks.len() == INODE_PTRS
    &&& v.reserved.len() == INODE_RESERVED
    &&& (v.parent matches Some(p) ==> p != 0)
}

/// An empty set of block pointers.
pub open spec fn empty_blocks() -> Seq<(u8, u8, u8)> {
    Seq::new(INODE_PTRS as nat, |i: int| (0u8, 0u8, 0u8))
}

// ---------------------------------------------------------------------------
// FileMode
// ---------------------------------------------------------------------------

/// The type and permissions for a file. Every bit pattern is kept.
#[derive(Debug, Clone, Copy, PartialEq, Eq, Structural)]
pub struct FileMode(u16);

impl View for FileMode {
    type V = u16;

    closed spec fn view(&self) -> u16 {
        self.0
    }
}

impl FileMode {
    /// Two modes with the same bits are the same mode.
    pub proof fn lemma_view_eq(a: FileMode, b: FileMode)
        requires
            a@ == b@,
        ensures
            a == b,
    {
    }

    /// The mode with no flags set.
    pub fn empty() -> (r: FileMode)
        ensures
            r@ == 0,
    {
        FileMode(0)
    }

    /// Set if the inode is a directory.
    pub fn directory() -> (r: FileMode)
        ensures
            r@ == 1,
    {
        FileMode(1)
    }

    /// Returns the raw bits of the mode.
    pub fn bits(&self) -> (r: u16)
        ensures
            r == self@,
    {
        self.0
    }

    /// Creates a mode from raw bits, keeping every bit.
    pub fn from_bits_retain(bits: u16) -> (r: FileMode)
        ensures
            r@ == bits,
    {
        FileMode(bits)
    }

    /// Returns `true` if every flag of `other` is set in `self`.
    pub fn contains(&self, other: FileMode) -> (r: bool)
        ensures
            r == (self@ & other@ == other@),
    {
        self.0 & other.0 == other.0
    }
}

// ---------------------------------------------------------------------------
// BlockPtr
// ---------------------------------------------------------------------------

/// A nullable pointer to a block stored after the inode table.
/// The pointer is guaranteed to be `0 < ptr <= 2^12`.
#[derive(Debug, Clone, Copy, PartialEq, Eq, Structural)]
pub struct BlockPtr(Option<u16>);

impl View for BlockPtr {
    type V = Option<u16>;

    closed spec fn view(&self) -> Option<u16> {
        self.0
    }
}

impl BlockPtr {
    /// The maximum possible value for a pointer, due to limits in [`DualBlockPtr`].
    pub const MAX_VAL: u16 = 4096;

    #[verifier::type_invariant]
    closed spec fn inv(self) -> bool {
        self.0 matches Some(v) ==> 0 < v <= BLOCK_PTR_MAX
    }

    /// Two pointers with the same value are the same pointer.
    pub proof fn lemma_view_eq(a: BlockPtr, b: BlockPtr)
        requires
            a@ == b@,
        ensures
            a == b,
    {
    }

    /// Returns a new, null pointer.
    pub fn null() -> (r: Self)
        ensures
            r@ == None::<u16>,
    {
        BlockPtr(None)
    }

    /// Creates a new pointer.
    /// Truncates the pointer to [`BlockPtr::MAX_VAL`] if it is greater.
    pub fn new(ptr: u16) -> (r: Self)
        ensures
            r@ == block_ptr_value(ptr),
    {
        if ptr == 0 {
            BlockPtr(None)
        } else if ptr < Self::MAX_VAL {
            BlockPtr(Some(ptr))
        } else {
            BlockPtr(Some(Self::MAX_VAL))
        }
    }

    /// Returns the contained pointer if it exists.
    pub fn get(&self) -> (r: Option<u16>)
        ensures
            r == self@,
            r matches Some(v) ==> 0 < v <= BLOCK_PTR_MAX,
    {
        proof {
            use_type_invariant(self);
        }
        self.0
    }

    /// Returns the contained pointer if it exists or `0` if not.
    pub fn get_nullable(&self) -> (r: u16)
        ensures
            r == nullable(self@),
            r <= BLOCK_PTR_MAX,
    {
        match self.get() {
            Some(val) => val,
            None => 0,
        }
    }

    /// Returns whether or not the pointer is `null`.
    pub fn is_null(&self) -> (r: bool)
        ensures
            r == (self@ is None),
    {
        self.get().is_none()
    }

    /// Returns `true` if the pointer is valid.
    pub fn is_valid(&self) -> (r: bool)
        ensures
            r == (self@ is Some),
    {
        !self.is_null()
    }
}

// ---------------------------------------------------------------------------
// InodePtr
// ---------------------------------------------------------------------------

/// A nullable pointer to an inode in the table.
#[derive(Debug, Clone, Copy, PartialEq, Eq, Structural)]
pub struct InodePtr(Option<u16>);

impl View for InodePtr {
    type V = Option<u16>;

    closed spec fn view(&self) -> Option<u16> {
        self.0
    }
}

impl InodePtr {
    #[verifier::type_invariant]
    closed spec fn inv(self) -> bool {
        self.0 matches Some(v) ==> v != 0
    }

    /// Two pointers with the same value are the same pointer.
    pub proof fn lemma_view_eq(a: InodePtr, b: InodePtr)
        requires
            a@ == b@,
        ensures
            a == b,
    {
    }

    /// Returns a new, null pointer.
    pub fn null() -> (r: Self)
        ensures
            r@ == None::<u16>,
    {
        InodePtr(None)
    }

    /// Creates a new pointer, which is null if `ptr` is zero.
    pub fn new(ptr: u16) -> (r: Self)
        ensures
            r@ == (if ptr == 0 {
                None
            } else {
                Some(ptr)
            }),
    {
        if ptr == 0 {
            InodePtr(None)
        } else {
            InodePtr(Some(ptr))
        }
    }

    /// Returns whether or not the pointer is `null`.
    pub fn is_null(&self) -> (r: bool)
        ensures
            r == (self@ is None),
    {
        self.get().is_none()
    }

    /// Returns `true` if the pointer is valid.
    pub fn is_valid(&self) -> (r: bool)
        ensures
            r == (self@ is Some),
    {
        !self.is_null()
    }

    /// Returns the contained pointer if it's valid.
    pub fn get(&self) -> (r: Option<u16>)
        ensures
            r == self@,
            r matches Some(v) ==> v != 0,
    {
        proof {
            use_type_invariant(self);
        }
        self.0
    }

    /// Returns the pointer's index in the inode table, which is one less than its value
    /// so that inode 0 isn't seen as null.
    pub fn get_table_idx(&self) -> (r: Option<u16>)
        ensures
            r == (match self@ {
                Some(v) => Some((v - 1) as u16),
                None => None,
            }),
            self@ matches Some(v) ==> v != 0,
    {
        proof {
            use_type_invariant(self);
        }
        match self.0 {
            Some(ptr) => Some(ptr - 1),
            None => None,
        }
    }
}

// ---------------------------------------------------------------------------
// DualBlockPtr
// ---------------------------------------------------------------------------

/// Represents two block pointers in three bytes, as a single block pointer is only 12 bits.
#[derive(Debug, Clone, Copy, PartialEq, Eq, Structural)]
pub struct DualBlockPtr(u8, u8, u8);

impl View for DualBlockPtr {
    type V = (u8, u8, u8);

    closed spec fn view(&self) -> (u8, u8, u8) {
        (self.0, self.1, self.2)
    }
}

/// Helper: a dual pointer with the given bytes.
pub(crate) fn dual_from_bytes(a: u8, b: u8, c: u8) -> (r: DualBlockPtr)
    ensures
        r@ == (a, b, c),
{
    DualBlockPtr(a, b, c)
}

/// The first and second pointers decoded from three bytes are below `2^12`.
pub proof fn lemma_dual_decode_range(b: (u8, u8, u8))
    ensures
        0 <= dual_first(b) < BLOCK_COUNT,
        0 <= dual_second(b) < BLOCK_COUNT,
{
}

/// Encoding two pointers below `2^12` then decoding them gives back the same values.
pub proof fn lemma_dual_encoding_round_trip(fst: u16, snd: u16)
    requires
        fst < BLOCK_COUNT,
        snd < BLOCK_COUNT,
    ensures
        dual_first(dual_encoding(fst, snd)) == fst,
        dual_second(dual_encoding(fst, snd)) == snd,
{
    let e = dual_encoding(fst, snd);
    assert(e.0 == fst / 16);
    assert(e.1 == (fst % 16) * 16 + snd / 256) by {
        assert(snd / 256 < 16);
    }
    assert(e.2 == snd % 256);
    assert(e.1 / 16 == fst % 16) by {
        assert(snd / 256 < 16);
    }
    assert(e.1 % 16 == snd / 256) by {
        assert(snd / 256 < 16);
    }
}

impl DualBlockPtr {
    /// The number of dual block ptrs stored in an inode.
    pub const INODE_PTRS: usize = 24;

    /// Returns an empty set of ptrs for an inode.
    pub fn empty_arr() -> (r: [DualBlockPtr; 24])
        ensures
            r@.map_values(|d: DualBlockPtr| d@) == empty_blocks(),
    {
        let r = [DualBlockPtr(0, 0, 0);24];
        assert(r@.map_values(|d: DualBlockPtr| d@) =~= empty_blocks());
        r
    }

    /// Returns the two block pointers.
    pub fn decode(&self) -> (r: [BlockPtr; 2])
        ensures
            r@[0]@ == block_ptr_value(dual_first(self@) as u16),
            r@[1]@ == block_ptr_value(dual_second(self@) as u16),
            dual_first(self@) < BLOCK_COUNT,
            dual_second(self@) < BLOCK_COUNT,
    {
        let (b0, b1, b2) = (self.0 as u16, self.1 as u16, self.2 as u16);
        let first = (b0 << 4u16) | ((b1 & 0b1111_0000u16) >> 4u16);
        let second = ((b1 & 0b1111u16) << 8u16) | b2;
        assert(first == b0 * 16 + b1 / 16) by (bit_vector)
            requires
                b0 < 256,
                b1 < 256,
                first == (b0 << 4u16) | ((b1 & 0b1111_0000u16) >> 4u16),
        ;
        assert(second == (b1 % 16) * 256 + b2) by (bit_vector)
            requires
                b1 < 256,
                b2 < 256,
                second == ((b1 & 0b1111u16) << 8u16) | b2,
        ;
        [BlockPtr::new(first), BlockPtr::new(second)]
    }

    /// Creates a new dual pointer struct from the two pointers.
    pub fn encode(ptrs: [&BlockPtr; 2]) -> (r: Self)
        ensures
            r@ == dual_encoding(nullable(ptrs@[0]@), nullable(ptrs@[1]@)),
    {
        let (fst, snd) = (ptrs[0].get_nullable(), ptrs[1].get_nullable());
        let one = (fst >> 4u16) as u8;
        let two = (((fst & 0b1111u16) << 4u16) | (snd & 0b1111_0000_0000u16) >> 8u16) as u8;
        let three = snd as u8;
        assert(one == ((fst / 16) % 256) as u8) by (bit_vector)
            requires
                one == (fst >> 4u16) as u8,
        ;
        assert(two == ((fst % 16) * 16 + (snd / 256) % 16) as u8) by (bit_vector)
            requires
                two == (((fst & 0b1111u16) << 4u16) | (snd & 0b1111_0000_0000u16) >> 8u16) as u8,
        ;
        assert(three == (snd % 256) as u8) by (bit_vector)
            requires
                three == snd as u8,
        ;
        DualBlockPtr(one, two, three)
    }
}

/// Decoding the encoding of two pointers made by `BlockPtr::new` from values below `2^12`
/// gives back both pointers. (`BlockPtr::MAX_VAL`, `2^12`, needs a thirteenth bit, which
/// the encoding drops.)
pub proof fn lemma_encode_decode(fst: u16, snd: u16)
    requires
        fst < BLOCK_COUNT,
        snd < BLOCK_COUNT,
    ensures
        block_ptr_value(
            dual_first(dual_encoding(nullable(block_ptr_value(fst)), nullable(block_ptr_value(snd))))
                as u16,
        ) == block_ptr_value(fst),
        block_ptr_value(
            dual_second(dual_encoding(nullable(block_ptr_value(fst)), nullable(block_ptr_value(snd))))
                as u16,
        ) == block_ptr_value(snd),
{
    lemma_dual_encoding_round_trip(nullable(block_ptr_value(fst)), nullable(block_ptr_value(snd)));
}


// ---------------------------------------------------------------------------
// INode
// ---------------------------------------------------------------------------

/// Splitting a 16 bit value into little endian bytes and joining them gives it back.
pub proof fn lemma_u16_le_round_trip(v: u16)
    ensures
        le_u16(u16_le(v)[0], u16_le(v)[1]) == v,
{
}

/// Joining two little endian bytes and splitting the result gives them back.
pub proof fn lemma_le_u16_round_trip(lo: u8, hi: u8)
    ensures
        u16_le(le_u16(lo, hi)) == seq![lo, hi],
{
    let v = le_u16(lo, hi);
    assert(v == lo + hi * 256);
    assert(v % 256 == lo);
    assert(v / 256 == hi);
    assert(u16_le(v) =~= seq![lo, hi]);
}

/// The byte at position `j` of the encoding of a sequence of dual pointers.
proof fn lemma_dual_seq_bytes_index(blocks: Seq<(u8, u8, u8)>, k: int)
    requires
        0 <= k < blocks.len(),
    ensures
        dual_seq_bytes(blocks)[3 * k] == blocks[k].0,
        dual_seq_bytes(blocks)[3 * k + 1] == blocks[k].1,
        dual_seq_bytes(blocks)[3 * k + 2] == blocks[k].2,
{
    assert((3 * k) / 3 == k && (3 * k) % 3 == 0);
    assert((3 * k + 1) / 3 == k && (3 * k + 1) % 3 == 1);
    assert((3 * k + 2) / 3 == k && (3 * k + 2) % 3 == 2);
}

/// Decoding the bytes of an inode then encoding it again gives back the same bytes.
pub proof fn lemma_inode_bytes_round_trip(b: Seq<u8>)
    requires
        b.len() == INODE_SIZE,
    ensures
        inode_bytes(inode_from_bytes(b)) == b,
        inode_view_wf(inode_from_bytes(b)),
{
    let v = inode_from_bytes(b);
    lemma_le_u16_round_trip(b[0], b[1]);
    lemma_le_u16_round_trip(b[3], b[4]);
    lemma_le_u16_round_trip(b[77], b[78]);
    assert(nullable(v.parent) == le_u16(b[77], b[78]));
    let d = dual_seq_bytes(v.blocks);
    assert forall|j: int| 0 <= j < 72 implies d[j] == b[5 + j] by {
        let k = j / 3;
        lemma_dual_seq_bytes_index(v.blocks, k);
        assert(j == 3 * k || j == 3 * k + 1 || j == 3 * k + 2);
    }
    assert(d =~= b.subrange(5, 77));
    assert(inode_bytes(v) =~= b);
}

/// Encoding a well formed inode then decoding the bytes gives back the same inode.
pub proof fn lemma_inode_view_round_trip(v: INodeView)
    requires
        inode_view_wf(v),
    ensures
        inode_bytes(v).len() == INODE_SIZE,
        inode_from_bytes(inode_bytes(v)) == v,
{
    let b = inode_bytes(v);
    lemma_u16_le_round_trip(v.mode);
    lemma_u16_le_round_trip(v.size);
    lemma_u16_le_round_trip(nullable(v.parent));
    let d = dual_seq_bytes(v.blocks);
    assert(b.len() == INODE_SIZE);
    assert(b.subrange(5, 77) =~= d);
    let w = inode_from_bytes(b);
    assert forall|k: int| 0 <= k < INODE_PTRS implies w.blocks[k] == v.blocks[k] by {
        lemma_dual_seq_bytes_index(v.blocks, k);
    }
    assert(w.blocks =~= v.blocks);
    assert(w.reserved =~= v.reserved);
    assert(w.parent == v.parent);
}

/// The metadata for a file, stored in the inode table.
#[derive(Debug)]
pub struct INode {
    /// The inode's type & permissions.
    mode: FileMode,
    /// The number of links to the inode; an inode with zero links is available for use.
    links: u8,
    /// The size of the file in bytes.
    size: u16,
    /// Direct pointers to the blocks used by the file.
    blocks: [DualBlockPtr; 24],
    /// The inode's parent, can be null.
    parent: InodePtr,
    /// Reserved for future use.
    reserved: [u8; 49],
}

impl View for INode {
    type V = INodeView;

    closed spec fn view(&self) -> INodeView {
        INodeView {
            mode: self.mode@,
            links: self.links,
            size: self.size,
            blocks: self.blocks@.map_values(|d: DualBlockPtr| d@),
            parent: self.parent@,
            reserved: self.reserved@,
        }
    }
}

/// A zeroed inode: no mode, links, size, blocks or parent.
pub open spec fn zeroed_inode() -> INodeView {
    INodeView {
        mode: 0,
        links: 0,
        size: 0,
        blocks: empty_blocks(),
        parent: None,
        reserved: Seq::new(INODE_RESERVED as nat, |i: int| 0u8),
    }
}

/// `v` with its reserved bytes cleared.
pub open spec fn clear_reserved(v: INodeView) -> INodeView {
    INodeView { reserved: Seq::new(INODE_RESERVED as nat, |i: int| 0u8), ..v }
}

impl INode {
    /// The size of the reserved bytes.
    pub const RESERVED_BYTES: usize = 49;

    /// Returns an empty inode.
    pub fn zeroed() -> (r: Self)
        ensures
            r@ == zeroed_inode(),
    {
        let r = INode {
            mode: FileMode::empty(),
            links: 0,
            size: 0,
            parent: InodePtr::null(),
            blocks: DualBlockPtr::empty_arr(),
            reserved: [0;49],
        };
        assert(r@.reserved =~= zeroed_inode().reserved);
        r
    }

    /// Creates a new inode with one link and no blocks.
    pub fn new(mode: FileMode, size: u16, parent: InodePtr) -> (r: Self)
        ensures
            r@ == (INodeView { mode: mode@, links: 1, size, parent: parent@, ..zeroed_inode() }),
    {
        let r = INode {
            mode,
            links: 1,
            size,
            parent,
            blocks: DualBlockPtr::empty_arr(),
            reserved: [0;49],
        };
        assert(r@.reserved =~= zeroed_inode().reserved);
        r
    }

    /// Returns if the inode is available to be allocated.
    pub fn is_available(&self) -> (r: bool)
        ensures
            r == (self@.links == 0),
    {
        self.links == 0
    }

    /// Returns a copy of the inode's mode.
    pub fn mode(&self) -> (r: FileMode)
        ensures
            r@ == self@.mode,
    {
        self.mode
    }

    /// Returns a copy of the inode's parent.
    pub fn parent(&self) -> (r: InodePtr)
        ensures
            r@ == self@.parent,
    {
        self.parent
    }

    /// Replaces the `k`th dual block pointer.
    pub fn set_block(&mut self, k: usize, dual: DualBlockPtr)
        requires
            k < INODE_PTRS,
        ensures
            final(self)@ == (INodeView {
                blocks: old(self)@.blocks.update(k as int, dual@),
                ..old(self)@
            }),
    {
        self.blocks[k] = dual;
        assert(self@.blocks =~= old(self)@.blocks.update(k as int, dual@));
    }

    /// The inode is well formed: a non-null parent never holds zero.
    pub fn check_wf(&self)
        ensures
            inode_view_wf(self@),
    {
        proof {
            use_type_invariant(&self.parent);
        }
    }

    /// Returns the `k`th dual block pointer of the inode.
    pub fn block(&self, k: usize) -> (r: DualBlockPtr)
        requires
            k < INODE_PTRS,
        ensures
            r@ == self@.blocks[k as int],
    {
        self.blocks[k]
    }

    /// Returns the 128 bytes the inode is stored as on the drive.
    pub fn to_bytes(&self) -> (r: Vec<u8>)
        ensures
            r@ == inode_bytes(self@),
            r@.len() == INODE_SIZE,
    {
        let ghost v = self@;
        let mut out: Vec<u8> = Vec::with_capacity(INODE_SIZE);
        let mode = self.mode.0;
        out.push((mode % 256) as u8);
        out.push((mode / 256) as u8);
        out.push(self.links);
        out.push((self.size % 256) as u8);
        out.push((self.size / 256) as u8);
        let ghost head = out@;
        assert(head =~= u16_le(v.mode) + seq![v.links] + u16_le(v.size));
        let mut k: usize = 0;
        while k < 24
            invariant
                0 <= k <= 24,
                v == self@,
                out@.len() == 5 + 3 * k,
                out@.subrange(0, 5) == head,
                forall|j: int| 0 <= j < 3 * k ==> out@[5 + j] == dual_seq_bytes(v.blocks)[j],
            decreases 24 - k,
        {
            let d = self.blocks[k];
            proof {
                lemma_dual_seq_bytes_index(v.blocks, k as int);
            }
            out.push(d.0);
            out.push(d.1);
            out.push(d.2);
            proof {
                assert forall|j: int| 0 <= j < 3 * (k + 1) implies out@[5 + j] == dual_seq_bytes(
                    v.blocks,
                )[j] by {
                    if j >= 3 * k {
                        assert(j == 3 * k || j == 3 * k + 1 || j == 3 * k + 2);
                    }
                }
                assert(out@.subrange(0, 5) =~= head);
            }
            k = k + 1;
        }
        let parent = self.parent.get();
        let p: u16 = match parent {
            Some(p) => p,
            None => 0,
        };
        out.push((p % 256) as u8);
        out.push((p / 256) as u8);
        let mut j: usize = 0;
        while j < 49
            invariant
                0 <= j <= 49,
                v == self@,
                p == nullable(v.parent),
                out@.len() == 79 + j,
                out@.subrange(0, 5) == head,
                forall|i: int| 0 <= i < 72 ==> out@[5 + i] == dual_seq_bytes(v.blocks)[i],
                out@[77] == (p % 256) as u8,
                out@[78] == (p / 256) as u8,
                forall|i: int| 0 <= i < j ==> out@[79 + i] == v.reserved[i],
            decreases 49 - j,
        {
            out.push(self.reserved[j]);
            proof {
                assert(out@.subrange(0, 5) =~= head);
            }
            j = j + 1;
        }
        proof {
            let want = inode_bytes(v);
            assert forall|i: int| 0 <= i < 128 implies out@[i] == want[i] by {
                if i < 5 {
                    assert(out@[i] == out@.subrange(0, 5)[i]);
                } else if i < 77 {
                    assert(out@[5 + (i - 5)] == dual_seq_bytes(v.blocks)[i - 5]);
                }
            }
            assert(out@ =~= want);
        }
        out
    }

    /// Reads an inode from the 128 bytes it is stored as.
    pub fn from_raw(bytes: &[u8]) -> (r: Self)
        requires
            bytes@.len() == INODE_SIZE,
        ensures
            r@ == inode_from_bytes(bytes@),
    {
        let r = Self::from_raw_at(bytes, 0);
        assert(bytes@.subrange(0, INODE_SIZE as int) =~= bytes@);
        r
    }

    /// Reads an inode from the 128 bytes starting at `off`.
    pub fn from_raw_at(bytes: &[u8], off: usize) -> (r: Self)
        requires
            off + INODE_SIZE <= bytes@.len(),
        ensures
            r@ == inode_from_bytes(bytes@.subrange(off as int, off + INODE_SIZE)),
    {
        let ghost b = bytes@.subrange(off as int, off + INODE_SIZE);
        let n = bytes.len();
        let mode = bytes[off] as u16 + (bytes[off + 1] as u16) * 256;
        let size = bytes[off + 3] as u16 + (bytes[off + 4] as u16) * 256;
        let parent = bytes[off + 77] as u16 + (bytes[off + 78] as u16) * 256;
        let mut blocks = DualBlockPtr::empty_arr();
        let mut k: usize = 0;
        while k < 24
            invariant
                0 <= k <= 24,
                off + INODE_SIZE <= bytes@.len(),
                n == bytes@.len(),
                b == bytes@.subrange(off as int, off + INODE_SIZE),
                forall|j: int| 0 <= j < k ==> blocks@[j]@ == (b[5 + 3 * j], b[6 + 3 * j], b[7 + 3 * j]),
            decreases 24 - k,
        {
            blocks[k] = DualBlockPtr(bytes[off + 5 + 3 * k], bytes[off + 6 + 3 * k], bytes[off + 7 + 3 * k]);
            k = k + 1;
        }
        let mut reserved = [0u8;49];
        let mut j: usize = 0;
        while j < 49
            invariant
                0 <= j <= 49,
                off + INODE_SIZE <= bytes@.len(),
                n == bytes@.len(),
                b == bytes@.subrange(off as int, off + INODE_SIZE),
                forall|i: int| 0 <= i < j ==> reserved@[i] == b[79 + i],
            decreases 49 - j,
        {
            reserved[j] = bytes[off + 79 + j];
            j = j + 1;
        }
        let r = INode {
            mode: FileMode(mode),
            links: bytes[off + 2],
            size,
            blocks,
            parent: InodePtr::new(parent),
            reserved,
        };
        proof {
            let w = inode_from_bytes(b);
            assert(r@.blocks =~= w.blocks);
            assert(r@.reserved =~= w.reserved);
        }
        r
    }
}

impl Clone for INode {
    /// Returns a copy of the inode with its reserved bytes cleared.
    fn clone(&self) -> (r: Self)
        ensures
            r@ == clear_reserved(self@),
    {
        let r = INode {
            mode: self.mode,
            links: self.links,
            size: self.size,
            parent: self.parent,
            blocks: self.blocks,
            reserved: [0;49],
        };
        assert(r@.reserved =~= clear_reserved(self@).reserved);
        r
    }

}

impl PartialEq for INode {
    /// Returns whether all the fields of the inodes, besides the reserved bytes, are equal.
    fn eq(&self, other: &Self) -> (r: bool)
        ensures
            r == inode_eq(self@, other@),
    {
        if self.size != other.size || self.links != other.links || self.mode.0 != other.mode.0 {
            return false;
        }
        if self.parent.get() != other.parent.get() {
            return false;
        }
        let mut i: usize = 0;
        while i < 24
            invariant
                0 <= i <= 24,
                forall|j: int| 0 <= j < i ==> self.blocks@[j]@ == other.blocks@[j]@,
            decreases 24 - i,
        {
            if self.blocks[i] != other.blocks[i] {
                assert(self@.blocks[i as int] != other@.blocks[i as int]);
                return false;
            }
            i = i + 1;
        }
        assert(self@.blocks =~= other@.blocks);
        true
    }

}

impl vstd::std_specs::cmp::PartialEqSpecImpl for INode {
    open spec fn obeys_eq_spec() -> bool {
        true
    }

    open spec fn eq_spec(&self, other: &INode) -> bool {
        inode_eq(self@, other@)
    }
}

impl crate::util::send::AsBytes for INode {
    open spec fn bytes_spec(&self) -> Seq<u8> {
        inode_bytes(self@)
    }

    fn as_bytes(&self) -> (r: Vec<u8>) {
        self.to_bytes()
    }
}

/// What directory inode blocks are filled with: an inode's name and a pointer to it.
pub struct InodeLookup {
    name: [u8; 46],
    inode: InodePtr,
}

impl InodeLookup {
    /// The number of bytes available in a name.
    pub const NAME_LEN: usize = 46;
}

} // verus!
