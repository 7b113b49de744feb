//! Handles the inode table and the bitmap of used blocks.
use vstd::prelude::*;

use crate::fs::{
    clear_reserved, inode_bytes, BlockPtr, INode, INodeView, InodePtr, BLOCK_COUNT, BLOCK_PTR_MAX, INODES,
    INODE_SIZE, INODE_START,
};

verus! {

/// The number of bits in a `u128`.
pub const U128_BITS: usize = 128;

/// The number of words in the block bitmap (`BLOCK_COUNT / 128`).
pub const BITMAP_WORDS: usize = 32;

/// Whether bit `b` of `w` is set.
pub open spec fn bit_of(w: u128, b: int) -> bool {
    (w >> (b as u128)) & 1u128 == 1u128
}

/// Setting bit `b` of a word leaves the other bits as they were.
proof fn lemma_set_bit(w: u128, b: u128, j: u128)
    requires
        b < 128,
        j < 128,
    ensures
        ((w | (1u128 << b)) >> j) & 1u128 == (if j == b {
            1u128
        } else {
            (w >> j) & 1u128
        }),
{
    assert(((w | (1u128 << b)) >> j) & 1u128 == (if j == b {
        1u128
    } else {
        (w >> j) & 1u128
    })) by (bit_vector)
        requires
            b < 128,
            j < 128,
    ;
}

/// Testing a bit with a mask is the same as reading it.
proof fn lemma_test_bit(w: u128, b: u128)
    requires
        b < 128,
    ensures
        (w & (1u128 << b) != 0) == ((w >> b) & 1u128 == 1u128),
{
    assert((w & (1u128 << b) != 0) == ((w >> b) & 1u128 == 1u128)) by (bit_vector)
        requires
            b < 128,
    ;
}

/// Bitmap of the blocks in use, where a clear bit marks an available block.
pub struct BlockBitmap {
    words: [u128; 32],
}

impl View for BlockBitmap {
    type V = Seq<bool>;

    /// Bit `i` tells whether block `i` is in use.
    closed spec fn view(&self) -> Seq<bool> {
        Seq::new(BLOCK_COUNT as nat, |i: int| bit_of(self.words@[i / 128], i % 128))
    }
}

impl BlockBitmap {
    /// Creates a bitmap with every block available.
    pub fn new() -> (r: Self)
        ensures
            r@ == Seq::new(BLOCK_COUNT as nat, |i: int| false),
    {
        let r = BlockBitmap { words: [0u128;32] };
        assert forall|i: int| 0 <= i < BLOCK_COUNT implies !#[trigger] bit_of(r.words@[i / 128], i % 128) by {
            let j = (i % 128) as u128;
            assert((0u128 >> j) & 1u128 == 0u128) by (bit_vector);
        }
        assert(r@ =~= Seq::new(BLOCK_COUNT as nat, |i: int| false));
        r
    }

    /// The bitmap tracks `BLOCK_COUNT` blocks.
    pub proof fn lemma_len(&self)
        ensures
            self@.len() == BLOCK_COUNT,
    {
    }

    /// Returns whether block `ptr` is in use.
    pub fn is_used(&self, ptr: u16) -> (r: bool)
        requires
            ptr < BLOCK_COUNT,
        ensures
            r == self@[ptr as int],
    {
        let idx = (ptr / 128) as usize;
        let bit = (ptr % 128) as u128;
        proof {
            lemma_test_bit(self.words@[idx as int], bit);
        }
        self.words[idx] & (1u128 << bit) != 0
    }

    /// Returns word `idx` of the bitmap, holding the bits of blocks `128 * idx..128 * idx + 128`.
    pub fn word(&self, idx: usize) -> (r: u128)
        requires
            idx < BITMAP_WORDS,
        ensures
            forall|b: int| 0 <= b < 128 ==> bit_of(r, b) == self@[128 * idx + b],
    {
        let r = self.words[idx];
        assert forall|b: int| 0 <= b < 128 implies bit_of(r, b) == self@[128 * idx + b] by {
            assert((128 * idx + b) / 128 == idx && (128 * idx + b) % 128 == b);
        }
        r
    }

    /// Overwrites word `idx` of the bitmap, setting the bits of blocks
    /// `128 * idx..128 * idx + 128`.
    pub fn set_word(&mut self, idx: usize, word: u128)
        requires
            idx < BITMAP_WORDS,
        ensures
            forall|i: int|
                0 <= i < BLOCK_COUNT ==> #[trigger] final(self)@[i] == if i / 128 == idx {
                    bit_of(word, i % 128)
                } else {
                    old(self)@[i]
                },
    {
        self.words[idx] = word;
    }

    /// Marks block `ptr` as in use.
    fn set_used(&mut self, ptr: u16)
        requires
            ptr < BLOCK_COUNT,
        ensures
            final(self)@ == old(self)@.update(ptr as int, true),
    {
        let idx = (ptr / 128) as usize;
        let bit = (ptr % 128) as u128;
        let ghost before = self@;
        let ghost old_words = self.words@;
        self.words[idx] = self.words[idx] | (1u128 << bit);
        proof {
            assert forall|i: int| 0 <= i < BLOCK_COUNT implies self@[i] == before.update(
                ptr as int,
                true,
            )[i] by {
                let j = (i % 128) as u128;
                if i / 128 == idx as int {
                    lemma_set_bit(old_words[idx as int], bit, j);
                    if i != ptr as int {
                        assert(j != bit);
                    }
                } else {
                    assert(i != ptr as int);
                }
            }
            assert(self@ =~= before.update(ptr as int, true));
        }
    }
}

/// The error returned from [`alloc_bmp`].
#[derive(Debug, PartialEq, Eq, Structural)]
pub enum AllocBmpError {
    /// Attempted allocating a null block ptr.
    NullPtr,
    /// The block is already allocated.
    AlreadyInUse(BlockPtr),
    /// The block's bitmap word was being used somewhere else.
    ExmapInUse(BlockPtr),
}

/// What marking `block` as used does to a bitmap going from `b0` to `b1` and returning
/// `r`: a null pointer and a block already in use are refused, leaving the bitmap as it
/// was; any other block is marked.
pub open spec fn alloc_bmp_outcome(
    block: BlockPtr,
    b0: Seq<bool>,
    b1: Seq<bool>,
    r: Result<(), AllocBmpError>,
) -> bool {
    match block@ {
        None => r == Err::<(), AllocBmpError>(AllocBmpError::NullPtr) && b1 == b0,
        Some(p) => if b0[p as int] {
            r == Err::<(), AllocBmpError>(AllocBmpError::AlreadyInUse(block)) && b1 == b0
        } else {
            r == Ok::<(), AllocBmpError>(()) && b1 == b0.update(p as int, true)
        },
    }
}

/// Tries to mark the block `block` in the bitmap as used if it's available, see
/// [`alloc_bmp_outcome`]. `BlockPtr::MAX_VAL` (`2^12`) lies past the
/// bitmap's last block and is never passed.
pub fn alloc_bmp(block: &BlockPtr, bmp: &mut BlockBitmap) -> (r: Result<(), AllocBmpError>)
    requires
        block@ != Some(BLOCK_PTR_MAX),
    ensures
        alloc_bmp_outcome(*block, old(bmp)@, final(bmp)@, r),
{
    let ptr = match block.get() {
        Some(p) => p,
        None => return Err(AllocBmpError::NullPtr),
    };
    if bmp.is_used(ptr) {
        Err(AllocBmpError::AlreadyInUse(*block))
    } else {
        bmp.set_used(ptr);
        Ok(())
    }
}

/// What allocating the next available block does to a bitmap going from `b0` to `b1`,
/// returning `r`: nothing when every block of the bitmap is used; otherwise the lowest
/// available block is marked and returned.
pub open spec fn alloc_next_outcome(b0: Seq<bool>, b1: Seq<bool>, r: Option<u16>) -> bool {
    match r {
        None => {
            &&& forall|q: int| 1 <= q < BLOCK_PTR_MAX ==> b0[q]
            &&& b1 == b0
        },
        Some(p) => {
            &&& 1 <= p < BLOCK_PTR_MAX
            &&& !b0[p as int]
            &&& forall|q: int| 1 <= q < p ==> b0[q]
            &&& b1 == b0.update(p as int, true)
        },
    }
}

/// Allocates the next available block in the block bitmap, returning a null ptr if the
/// bitmap is full, see [`alloc_next_outcome`].
pub fn alloc_next_bmp(bmp: &mut BlockBitmap) -> (r: BlockPtr)
    ensures
        alloc_next_outcome(old(bmp)@, final(bmp)@, r@),
{
    let ghost start = bmp@;
    let mut ptr: u16 = 1;
    while ptr < BlockPtr::MAX_VAL
        invariant
            1 <= ptr <= BLOCK_PTR_MAX,
            start == old(bmp)@,
            bmp@ == start,
            forall|q: int| 1 <= q < ptr ==> start[q],
        decreases BLOCK_PTR_MAX - ptr,
    {
        let blk = BlockPtr::new(ptr);
        let res = alloc_bmp(&blk, bmp);
        if res.is_ok() {
            assert(blk@ == Some(ptr));
            return blk;
        }
        assert(start[ptr as int]);
        ptr = ptr + 1;
    }
    BlockPtr::null()
}

// ---------------------------------------------------------------------------
// Inode table
// ---------------------------------------------------------------------------

/// Memory cached inode table written to the drive on change.
pub struct InodeTable {
    nodes: Vec<INode>,
}

impl View for InodeTable {
    type V = Seq<INodeView>;

    closed spec fn view(&self) -> Seq<INodeView> {
        self.nodes@.map_values(|n: INode| n@)
    }
}

/// The first available inode at or after `i`, or the table's length if there is none.
pub open spec fn first_available_from(t: Seq<INodeView>, i: int) -> int
    decreases t.len() - i,
{
    if i >= t.len() {
        t.len() as int
    } else if t[i].links == 0 {
        i
    } else {
        first_available_from(t, i + 1)
    }
}

/// The first available inode in the table, or the table's length if there is none.
pub open spec fn first_available(t: Seq<INodeView>) -> int {
    first_available_from(t, 0)
}

/// The first available inode from `i` is at or after `i`, is available,
/// and every inode between `i` and it is in use.
pub proof fn lemma_first_available_from(t: Seq<INodeView>, i: int)
    requires
        0 <= i <= t.len(),
    ensures
        i <= first_available_from(t, i) <= t.len(),
        first_available_from(t, i) < t.len() ==> t[first_available_from(t, i)].links == 0,
        forall|j: int| i <= j < first_available_from(t, i) ==> t[j].links != 0,
    decreases t.len() - i,
{
    if i < t.len() && t[i].links != 0 {
        lemma_first_available_from(t, i + 1);
    }
}

/// The bytes of the block of four inodes starting at `start`.
pub open spec fn inode_block_bytes(t: Seq<INodeView>, start: int) -> Seq<u8> {
    inode_bytes(t[start]) + inode_bytes(t[start + 1]) + inode_bytes(t[start + 2]) + inode_bytes(
        t[start + 3],
    )
}

/// The block on the drive holding the inode at table index `idx`.
pub open spec fn inode_block(idx: int) -> int {
    INODE_START + idx / 4
}

impl InodeTable {
    /// Creates a table of zeroed inodes.
    pub fn new() -> (r: Self)
        ensures
            r@ == Seq::new(INODES as nat, |i: int| crate::fs::zeroed_inode()),
    {
        let mut nodes: Vec<INode> = Vec::with_capacity(INODES);
        let mut i: usize = 0;
        while i < INODES
            invariant
                0 <= i <= INODES,
                nodes@.len() == i,
                forall|j: int| 0 <= j < i ==> nodes@[j]@ == crate::fs::zeroed_inode(),
            decreases INODES - i,
        {
            nodes.push(INode::zeroed());
            i = i + 1;
        }
        let r = InodeTable { nodes };
        assert(r@ =~= Seq::new(INODES as nat, |i: int| crate::fs::zeroed_inode()));
        r
    }

    /// The number of inodes in the table.
    pub fn len(&self) -> (r: usize)
        ensures
            r == self@.len(),
    {
        self.nodes.len()
    }

    /// Returns a copy of the inode at index `idx`.
    pub fn get(&self, idx: usize) -> (r: INode)
        requires
            idx < self@.len(),
        ensures
            r@ == clear_reserved(self@[idx as int]),
    {
        self.nodes[idx].clone()
    }

    /// Replaces the inode at index `idx`.
    pub fn set(&mut self, idx: usize, nod: INode)
        requires
            idx < old(self)@.len(),
        ensures
            final(self)@ == old(self)@.update(idx as int, nod@),
    {
        self.nodes.set(idx, nod);
        assert(self@ =~= old(self)@.update(idx as int, nod@));
    }

    /// Returns the bytes of the four inodes starting at `start`.
    fn block_bytes(&self, start: usize) -> (r: Vec<u8>)
        requires
            start + 4 <= self@.len(),
        ensures
            r@ == inode_block_bytes(self@, start as int),
    {
        let mut out: Vec<u8> = Vec::new();
        let mut k: usize = 0;
        let n = self.nodes.len();
        while k < 4
            invariant
                0 <= k <= 4,
                start + 4 <= self@.len(),
                n == self@.len(),
                self@.len() == self.nodes@.len(),
                out@ == (if k == 0 {
                    Seq::<u8>::empty()
                } else if k == 1 {
                    inode_bytes(self@[start as int])
                } else if k == 2 {
                    inode_bytes(self@[start as int]) + inode_bytes(self@[start + 1])
                } else if k == 3 {
                    inode_bytes(self@[start as int]) + inode_bytes(self@[start + 1]) + inode_bytes(
                        self@[start + 2],
                    )
                } else {
                    inode_block_bytes(self@, start as int)
                }),
            decreases 4 - k,
        {
            let mut b = self.nodes[start + k].to_bytes();
            out.append(&mut b);
            k = k + 1;
        }
        out
    }
}

/// A block can't be allocated twice: once marked, marking it again is refused and leaves
/// the bitmap as it was.
pub proof fn lemma_no_double_alloc(
    block: BlockPtr,
    b0: Seq<bool>,
    b1: Seq<bool>,
    b2: Seq<bool>,
    r1: Result<(), AllocBmpError>,
    r2: Result<(), AllocBmpError>,
)
    requires
        b0.len() == BLOCK_COUNT,
        block@ matches Some(p) ==> p < BLOCK_COUNT,
        alloc_bmp_outcome(block, b0, b1, r1),
        r1 is Ok,
        alloc_bmp_outcome(block, b1, b2, r2),
    ensures
        r2 == Err::<(), AllocBmpError>(AllocBmpError::AlreadyInUse(block)),
        b2 == b1,
{
}

/// Allocating the next block twice hands out two blocks, the second after the first:
/// no block is handed out twice.
pub proof fn lemma_alloc_next_increasing(
    b0: Seq<bool>,
    b1: Seq<bool>,
    b2: Seq<bool>,
    p: u16,
    q: u16,
)
    requires
        b0.len() == BLOCK_COUNT,
        alloc_next_outcome(b0, b1, Some(p)),
        alloc_next_outcome(b1, b2, Some(q)),
    ensures
        p < q,
{
    if q < p {
        assert(b0[q as int]);
        assert(b1[q as int]);
    }
}

/// The error returned when writing an inode to the drive.
#[derive(Debug)]
pub enum UpdateInodeError<E> {
    /// Passed a null pointer.
    NullPtr,
    /// The inodes in the table couldn't be accessed.
    TblExmapFailure,
    /// The drive couldn't be written to.
    WriteError(E),
}

/// The error returned from [`alloc_inode`].
#[derive(Debug)]
pub enum AllocInodeError<E> {
    /// There's no space left in the inode table.
    OutOfInodes,
    /// The allocated inode couldn't be written to the drive.
    UpdateInode(UpdateInodeError<E>),
}

/// Writes the inode at the non-null pointer `ptr`, as well as the other inodes in its
/// block, to the drive.
pub fn write_inode_block<E, W>(ptr: &InodePtr, tbl: &InodeTable, write: &W) -> (r: Result<
    (),
    UpdateInodeError<E>,
>) where W: Fn(u64, &[u8]) -> Result<(), E>
    requires
        tbl@.len() == INODES,
        ptr@ matches Some(v) ==> v <= INODES,
        forall|block: u64, buf: &[u8]| #[trigger] write.requires((block, buf)),
    ensures
        match ptr@ {
            None => r is Err && r->Err_0 is NullPtr,
            Some(v) => {
                let idx = v - 1;
                let start = idx / 4 * 4;
                exists|buf: &[u8], res: Result<(), E>|
                    {
                        &&& buf@ == inode_block_bytes(tbl@, start)
                        &&& #[trigger] write.ensures((inode_block(idx) as u64, buf), res)
                        &&& match res {
                            Ok(_) => r is Ok,
                            Err(e) => r matches Err(UpdateInodeError::WriteError(e2)) && e2 == e,
                        }
                    }
            },
        },
{
    let idx = match ptr.get_table_idx() {
        Some(i) => i,
        None => return Err(UpdateInodeError::NullPtr),
    };
    let block = INODE_START + (idx / 4) as u64;
    let start = (idx / 4 * 4) as usize;
    assert(start + 4 <= INODES) by {
        assert(idx < INODES);
    }
    let buf = tbl.block_bytes(start);
    let slice = buf.as_slice();
    let res = write(block, slice);
    assert(block == inode_block(idx as int) as u64);
    match res {
        Ok(()) => Ok(()),
        Err(e) => Err(UpdateInodeError::WriteError(e)),
    }
}

/// What allocating an inode whose view is `v` does to a table going from `t0` to `t1`
/// with `write` and result `r`: without an available inode nothing changes and the
/// table is full; otherwise `v` (reserved bytes cleared) takes the first available slot,
/// whose block is written to the drive, and a pointer to it is returned unless that write
/// failed.
pub open spec fn alloc_inode_outcome<E, W: Fn(u64, &[u8]) -> Result<(), E>>(
    write: &W,
    t0: Seq<INodeView>,
    t1: Seq<INodeView>,
    v: INodeView,
    r: Result<InodePtr, AllocInodeError<E>>,
) -> bool {
    if first_available(t0) == INODES {
        &&& r is Err && r->Err_0 is OutOfInodes
        &&& t1 == t0
    } else {
        let idx = first_available(t0);
        let t = t0.update(idx, clear_reserved(v));
        &&& t1 == t
        &&& exists|buf: &[u8], res: Result<(), E>|
            {
                &&& buf@ == inode_block_bytes(t, idx / 4 * 4)
                &&& #[trigger] write.ensures((inode_block(idx) as u64, buf), res)
                &&& match res {
                    Ok(_) => r matches Ok(p) && p@ == Some((idx + 1) as u16),
                    Err(e) => r matches Err(
                        AllocInodeError::UpdateInode(UpdateInodeError::WriteError(e2)),
                    ) && e2 == e,
                }
            }
    }
}

/// Tries to allocate inode `nod` in the first available slot of `tbl`, writing its block
/// to the drive and returning a pointer to it, see [`alloc_inode_outcome`].
pub fn alloc_inode<E, W>(nod: &INode, tbl: &mut InodeTable, write: &W) -> (r: Result<
    InodePtr,
    AllocInodeError<E>,
>) where W: Fn(u64, &[u8]) -> Result<(), E>
    requires
        old(tbl)@.len() == INODES,
        forall|block: u64, buf: &[u8]| #[trigger] write.requires((block, buf)),
    ensures
        final(tbl)@.len() == INODES,
        alloc_inode_outcome(write, old(tbl)@, final(tbl)@, nod@, r),
{
    let ghost t0 = tbl@;
    proof {
        crate::fs::table::lemma_first_available_from(t0, 0);
    }
    let mut idx: usize = 0;
    while idx < INODES
        invariant
            0 <= idx <= INODES,
            tbl@ == t0,
            t0 == old(tbl)@,
            t0.len() == INODES,
            forall|block: u64, buf: &[u8]| #[trigger] write.requires((block, buf)),
            first_available(t0) == first_available_from(t0, idx as int),
        decreases INODES - idx,
    {
        if tbl.nodes[idx].is_available() {
            let new_nod = nod.clone();
            tbl.set(idx, new_nod);
            let ptr = InodePtr::new((idx + 1) as u16);
            match write_inode_block(&ptr, tbl, write) {
                Ok(()) => return Ok(ptr),
                Err(e) => return Err(AllocInodeError::UpdateInode(e)),
            }
        }
        idx = idx + 1;
    }
    Err(AllocInodeError::OutOfInodes)
}

} // verus!
