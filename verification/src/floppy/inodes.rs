//! Reading the blocks of an inode of the floppy filesystem.
use vstd::prelude::*;

use crate::floppy::floppyfs::padded;
use crate::floppy::SECTOR_SIZE;
use crate::fs::init::ptr_at;
use crate::fs::table::{
    alloc_inode_outcome, alloc_next_bmp, AllocInodeError, BlockBitmap, InodeTable,
    UpdateInodeError,
};
use crate::fs::{
    clear_reserved, dual_encoding, BlockPtr, DualBlockPtr, INode, INodeView, InodePtr,
    BLOCK_PTR_MAX, INODES, INODE_PTRS,
};

verus! {

/// The error returned when reading an inode's blocks from the drive.
#[derive(Debug)]
pub enum InodeIOError<E> {
    /// The drive returned an error.
    FloppyError(E),
    /// There's no inode with this index.
    NoInodeFound(u64),
}

/// The non-null block pointers among the first `j` block pointers of an inode, in
/// order.
pub open spec fn nonnull_ptrs(v: INodeView, j: int) -> Seq<u16>
    decreases j,
{
    if j <= 0 {
        seq![]
    } else {
        let s = nonnull_ptrs(v, j - 1);
        if ptr_at(v, j - 1) != 0 {
            s.push(ptr_at(v, j - 1) as u16)
        } else {
            s
        }
    }
}

/// The blocks of an inode, in order: its non-null block pointers.
pub open spec fn inode_blocks(v: INodeView) -> Seq<u16> {
    nonnull_ptrs(v, 2 * INODE_PTRS as int)
}

/// There are at most `j` non-null pointers among the first `j`.
proof fn lemma_nonnull_len(v: INodeView, j: int)
    requires
        j >= 0,
    ensures
        nonnull_ptrs(v, j).len() <= j,
    decreases j,
{
    if j > 0 {
        lemma_nonnull_len(v, j - 1);
    }
}

/// The number of sectors read for an inode whose blocks are `blocks` into a buffer of
/// `len` bytes: as many blocks as fit whole.
pub open spec fn sectors_read(blocks: Seq<u16>, len: int) -> int {
    if blocks.len() < len / SECTOR_SIZE as int {
        blocks.len() as int
    } else {
        len / SECTOR_SIZE as int
    }
}

/// Sector `i` of `buf` holds what `read` returned (`data`) for `block`.
pub open spec fn sector_holds<E, R: Fn(u64, usize) -> Result<Vec<u8>, E>>(
    read: &R,
    buf: Seq<u8>,
    i: int,
    block: u16,
    data: Vec<u8>,
) -> bool {
    &&& read.ensures((block as u64, SECTOR_SIZE), Ok(data))
    &&& buf.subrange(i * SECTOR_SIZE, i * SECTOR_SIZE + SECTOR_SIZE) == padded(
        data@,
        SECTOR_SIZE as int,
    )
}

/// Sector `i` of `buf` holds what `read` returned for `block`.
pub open spec fn sector_filled<E, R: Fn(u64, usize) -> Result<Vec<u8>, E>>(
    read: &R,
    buf: Seq<u8>,
    i: int,
    block: u16,
) -> bool {
    exists|data: Vec<u8>| #[trigger] sector_holds(read, buf, i, block, data)
}

/// Reading the blocks `blocks` into `before` stopped at block `k`, whose read failed with
/// `e`, leaving `after`: the blocks before it are in place, the rest is untouched.
pub open spec fn inode_read_failed_at<E, R: Fn(u64, usize) -> Result<Vec<u8>, E>>(
    read: &R,
    blocks: Seq<u16>,
    before: Seq<u8>,
    after: Seq<u8>,
    k: int,
    e: E,
) -> bool {
    &&& 0 <= k < sectors_read(blocks, before.len() as int)
    &&& forall|i: int| 0 <= i < k ==> #[trigger] sector_filled(read, after, i, blocks[i])
    &&& read.ensures((blocks[k] as u64, SECTOR_SIZE), Err(e))
    &&& after.subrange(k * SECTOR_SIZE, before.len() as int) == before.subrange(
        k * SECTOR_SIZE,
        before.len() as int,
    )
}

/// Reading the blocks `blocks` into `before` failed with `e`, leaving `after`.
pub open spec fn inode_read_failed<E, R: Fn(u64, usize) -> Result<Vec<u8>, E>>(
    read: &R,
    blocks: Seq<u16>,
    before: Seq<u8>,
    after: Seq<u8>,
    e: E,
) -> bool {
    exists|k: int| #[trigger] inode_read_failed_at(read, blocks, before, after, k, e)
}

/// The non-null block pointers of `tbl`'s inode `idx`, see [`inode_blocks`].
fn blocks_of(tbl: &InodeTable, idx: usize) -> (r: Vec<u16>)
    requires
        idx < tbl@.len(),
    ensures
        r@ == inode_blocks(tbl@[idx as int]),
{
    let nod = tbl.get(idx);
    nod.check_wf();
    let ghost v = tbl@[idx as int];
    assert(nod@.blocks == v.blocks);
    let mut out: Vec<u16> = Vec::new();
    let mut k: usize = 0;
    while k < INODE_PTRS
        invariant
            0 <= k <= INODE_PTRS,
            nod@.blocks == v.blocks,
            nod@.blocks.len() == INODE_PTRS,
            out@ == nonnull_ptrs(v, 2 * k),
        decreases INODE_PTRS - k,
    {
        let ptrs = nod.block(k).decode();
        let ghost j = 2 * k;
        assert(j / 2 == k && j % 2 == 0);
        assert((j + 1) / 2 == k && (j + 1) % 2 == 1);
        match ptrs[0].get() {
            Some(p) => out.push(p),
            None => {},
        }
        assert(out@ == nonnull_ptrs(v, 2 * k + 1));
        match ptrs[1].get() {
            Some(p) => out.push(p),
            None => {},
        }
        k = k + 1;
    }
    out
}

/// Puts `data` (padded with zeros) into sector `i` of `buf`.
fn fill_sector(buf: &mut [u8], i: usize, data: &Vec<u8>)
    requires
        (i + 1) * SECTOR_SIZE <= old(buf)@.len(),
    ensures
        final(buf)@ == old(buf)@.subrange(0, i * SECTOR_SIZE) + padded(data@, SECTOR_SIZE as int)
            + old(buf)@.subrange((i + 1) * SECTOR_SIZE, old(buf)@.len() as int),
{
    let l = buf.len();
    assert(i * SECTOR_SIZE <= (i + 1) * SECTOR_SIZE) by (nonlinear_arith);
    let start = i * SECTOR_SIZE;
    let n = data.len();
    let mut k: usize = 0;
    while k < SECTOR_SIZE
        invariant
            0 <= k <= SECTOR_SIZE,
            start == i * SECTOR_SIZE,
            start + SECTOR_SIZE <= buf@.len(),
            buf@.len() == old(buf)@.len(),
            n == data@.len(),
            forall|j: int| 0 <= j < start ==> buf@[j] == old(buf)@[j],
            forall|j: int| start + SECTOR_SIZE <= j < buf@.len() ==> buf@[j] == old(buf)@[j],
            forall|j: int|
                start <= j < start + k ==> buf@[j] == padded(data@, SECTOR_SIZE as int)[j - start],
        decreases SECTOR_SIZE - k,
    {
        let v = if k < n {
            data[k]
        } else {
            0u8
        };
        buf[start + k] = v;
        k = k + 1;
    }
    assert(buf@ =~= old(buf)@.subrange(0, i * SECTOR_SIZE) + padded(data@, SECTOR_SIZE as int)
        + old(buf)@.subrange((i + 1) * SECTOR_SIZE, old(buf)@.len() as int));
}

/// Reads the blocks of inode `ptr` of `tbl` (its non-null block pointers, in order) into
/// `buf` with `read` (given a block and a length), one sector each, stopping when the
/// next one doesn't fit whole; returns the number of sectors read. Bytes the reader
/// doesn't return read as zero.
pub fn read_inode<E, R>(ptr: u64, tbl: &InodeTable, buf: &mut [u8], read: &R) -> (r: Result<
    u16,
    InodeIOError<E>,
>) where R: Fn(u64, usize) -> Result<Vec<u8>, E>
    requires
        old(buf)@.len() <= usize::MAX,
        tbl@.len() == INODES,
        forall|b: u64, l: usize| #[trigger] read.requires((b, l)),
    ensures
        final(buf)@.len() == old(buf)@.len(),
        ptr >= INODES ==> final(buf)@ == old(buf)@,
        ptr >= INODES ==> (r matches Err(InodeIOError::NoInodeFound(p)) && p == ptr),
        ptr < INODES ==> {
            let blocks = inode_blocks(tbl@[ptr as int]);
            let n = sectors_read(blocks, old(buf)@.len() as int);
            &&& r is Ok ==> {
                &&& r == Ok::<u16, InodeIOError<E>>(n as u16)
                &&& forall|i: int|
                    0 <= i < n ==> #[trigger] sector_filled(read, final(buf)@, i, blocks[i])
                &&& final(buf)@.subrange(n * SECTOR_SIZE, old(buf)@.len() as int)
                    == old(buf)@.subrange(n * SECTOR_SIZE, old(buf)@.len() as int)
            }
            &&& r matches Err(InodeIOError::FloppyError(e)) ==> inode_read_failed(
                read,
                blocks,
                old(buf)@,
                final(buf)@,
                e,
            )
            &&& !(r matches Err(InodeIOError::NoInodeFound(_)))
        },
{
    if ptr >= INODES as u64 {
        return Err(InodeIOError::NoInodeFound(ptr));
    }
    let idx = ptr as usize;
    let blocks = blocks_of(tbl, idx);
    let ghost orig = buf@;
    let ghost len = buf@.len() as int;
    proof {
        lemma_nonnull_len(tbl@[idx as int], 2 * INODE_PTRS as int);
    }
    let fit = buf.len() / SECTOR_SIZE;
    let n = if blocks.len() < fit {
        blocks.len()
    } else {
        fit
    };
    assert(n == sectors_read(blocks@, len));
    let ghost mut datas: Seq<Vec<u8>> = seq![];
    let mut i: usize = 0;
    while i < n
        invariant
            0 <= i <= n,
            ptr < INODES,
            tbl@.len() == INODES,
            blocks@ == inode_blocks(tbl@[ptr as int]),
            n == sectors_read(blocks@, len),
            n <= blocks@.len() <= 48,
            n * SECTOR_SIZE <= len,
            len == orig.len(),
            orig == old(buf)@,
            buf@.len() == len,
            datas.len() == i,
            forall|b: u64, l: usize| #[trigger] read.requires((b, l)),
            forall|j: int|
                0 <= j < i ==> #[trigger] sector_holds(read, buf@, j, blocks@[j], datas[j]),
            buf@.subrange(i * SECTOR_SIZE, len) == orig.subrange(i * SECTOR_SIZE, len),
        decreases n - i,
    {
        let res = read(blocks[i] as u64, SECTOR_SIZE);
        let data = match res {
            Err(e) => {
                proof {
                    assert forall|j: int| 0 <= j < i implies #[trigger] sector_filled(
                        read,
                        buf@,
                        j,
                        blocks@[j],
                    ) by {
                        assert(sector_holds(read, buf@, j, blocks@[j], datas[j]));
                    }
                    assert(inode_read_failed_at(read, blocks@, orig, buf@, i as int, e));
                    assert(inode_read_failed(read, blocks@, orig, buf@, e));
                    assert(blocks@ == inode_blocks(tbl@[ptr as int]));
                }
                return Err(InodeIOError::FloppyError(e));
            },
            Ok(data) => data,
        };
        let ghost before = buf@;
        fill_sector(buf, i, &data);
        proof {
            let old_datas = datas;
            datas = datas.push(data);
            assert forall|j: int| 0 <= j < i + 1 implies #[trigger] sector_holds(
                read,
                buf@,
                j,
                blocks@[j],
                datas[j],
            ) by {
                if j < i {
                    assert(datas[j] == old_datas[j]);
                    assert(sector_holds(read, before, j, blocks@[j], old_datas[j]));
                    assert(buf@.subrange(j * SECTOR_SIZE, j * SECTOR_SIZE + SECTOR_SIZE)
                        =~= before.subrange(j * SECTOR_SIZE, j * SECTOR_SIZE + SECTOR_SIZE));
                } else {
                    assert(datas[j] == data);
                    assert(buf@.subrange(j * SECTOR_SIZE, j * SECTOR_SIZE + SECTOR_SIZE)
                        =~= padded(data@, SECTOR_SIZE as int));
                }
            }
            let e0 = (i + 1) * SECTOR_SIZE;
            assert(buf@.subrange(e0, len) =~= orig.subrange(e0, len)) by {
                assert forall|k: int| e0 <= k < len implies before[k] == orig[k] by {
                    assert(before.subrange(i * SECTOR_SIZE, len)[k - i * SECTOR_SIZE]
                        == orig.subrange(i * SECTOR_SIZE, len)[k - i * SECTOR_SIZE]);
                }
            }
        }
        i = i + 1;
    }
    proof {
        assert forall|j: int| 0 <= j < n implies #[trigger] sector_filled(
            read,
            buf@,
            j,
            blocks@[j],
        ) by {
            assert(sector_holds(read, buf@, j, blocks@[j], datas[j]));
        }
    }
    Ok(n as u16)
}

// ---------------------------------------------------------------------------
// Allocating an inode with blocks
// ---------------------------------------------------------------------------

/// The first available block of `bmp` at or after `q`, if any.
pub open spec fn first_free_from(bmp: Seq<bool>, q: int) -> Option<u16>
    decreases BLOCK_PTR_MAX - q,
{
    if q >= BLOCK_PTR_MAX || q < 1 {
        None
    } else if !bmp[q] {
        Some(q as u16)
    } else {
        first_free_from(bmp, q + 1)
    }
}

/// The first available block from `q` is `p` when every block from `q` up to `p` is used
/// and `p` isn't.
proof fn lemma_first_free(bmp: Seq<bool>, q: int, p: int)
    requires
        1 <= q <= p < BLOCK_PTR_MAX,
        forall|i: int| q <= i < p ==> bmp[i],
        !bmp[p],
    ensures
        first_free_from(bmp, q) == Some(p as u16),
    decreases p - q,
{
    if q < p {
        lemma_first_free(bmp, q + 1, p);
    }
}

/// There's no available block from `q` when every block from `q` on is used.
proof fn lemma_none_free(bmp: Seq<bool>, q: int)
    requires
        1 <= q <= BLOCK_PTR_MAX,
        forall|i: int| q <= i < BLOCK_PTR_MAX ==> bmp[i],
    ensures
        first_free_from(bmp, q) is None,
    decreases BLOCK_PTR_MAX - q,
{
    if q < BLOCK_PTR_MAX {
        lemma_none_free(bmp, q + 1);
    }
}

/// The blocks allocated one after the other, the bitmap after allocating them, and
/// whether every allocation succeeded.
pub struct BlockAlloc {
    pub blocks: Seq<u16>,
    pub bmp: Seq<bool>,
    pub ok: bool,
}

/// Allocating `n` blocks of `bmp` one after the other, each the first available one,
/// stopping at the first that can't be.
pub open spec fn alloc_blocks(bmp: Seq<bool>, n: nat) -> BlockAlloc
    decreases n,
{
    if n == 0 {
        BlockAlloc { blocks: seq![], bmp, ok: true }
    } else {
        let a = alloc_blocks(bmp, (n - 1) as nat);
        if !a.ok {
            a
        } else {
            match first_free_from(a.bmp, 1) {
                None => BlockAlloc { ok: false, ..a },
                Some(p) => BlockAlloc {
                    blocks: a.blocks.push(p),
                    bmp: a.bmp.update(p as int, true),
                    ok: true,
                },
            }
        }
    }
}

/// The `i`th block of `blocks`, or the null pointer past its end.
pub open spec fn block_or_null(blocks: Seq<u16>, i: int) -> u16 {
    if 0 <= i < blocks.len() {
        blocks[i]
    } else {
        0
    }
}

/// `v` holding `blocks` as its block pointers, in order, the rest null.
pub open spec fn with_blocks(v: INodeView, blocks: Seq<u16>) -> INodeView {
    INodeView {
        blocks: Seq::new(
            INODE_PTRS as nat,
            |k: int| dual_encoding(block_or_null(blocks, 2 * k), block_or_null(blocks, 2 * k + 1)),
        ),
        ..v
    }
}

/// The error returned when trying to allocate an inode with blocks.
#[derive(Debug)]
pub enum AllocINodeError<E> {
    /// There's no available inode left.
    OutOfInodes,
    /// There are no blocks left on the filesystem.
    OutOfBlocks,
    /// The inode couldn't be written to the drive.
    WriteError(UpdateInodeError<E>),
}

/// The result of allocating an inode with blocks, given the result `r` of allocating the
/// inode in the table.
pub open spec fn alloc_result<E>(r: Result<InodePtr, AllocInodeError<E>>) -> Result<
    InodePtr,
    AllocINodeError<E>,
> {
    match r {
        Ok(p) => Ok(p),
        Err(AllocInodeError::OutOfInodes) => Err(AllocINodeError::OutOfInodes),
        Err(AllocInodeError::UpdateInode(e)) => Err(AllocINodeError::WriteError(e)),
    }
}

/// The number of blocks allocated for an inode asking for `blocks`: at most as many as
/// an inode holds.
pub open spec fn capped_blocks(blocks: u8) -> nat {
    if blocks < 2 * INODE_PTRS {
        blocks as nat
    } else {
        (2 * INODE_PTRS) as nat
    }
}

/// What allocating an inode whose view is `v` with `blocks` blocks does, taking the table
/// from `t0` to `t1` and the bitmap from `b0` to `b1` and returning `r`: at most as many
/// blocks as an inode holds are allocated one after the other; if that fails the table is
/// unchanged and the blocks ran out; otherwise the inode holding them is allocated in the
/// table (see [`alloc_inode_outcome`]).
pub open spec fn alloc_with_blocks_outcome<E, W: Fn(u64, &[u8]) -> Result<(), E>>(
    write: &W,
    v: INodeView,
    blocks: u8,
    t0: Seq<INodeView>,
    b0: Seq<bool>,
    t1: Seq<INodeView>,
    b1: Seq<bool>,
    r: Result<InodePtr, AllocINodeError<E>>,
) -> bool {
    let a = alloc_blocks(b0, capped_blocks(blocks));
    &&& b1 == a.bmp
    &&& !a.ok ==> (r matches Err(AllocINodeError::OutOfBlocks) && t1 == t0)
    &&& a.ok ==> exists|ir: Result<InodePtr, AllocInodeError<E>>|
        #[trigger] alloc_inode_outcome(write, t0, t1, with_blocks(clear_reserved(v), a.blocks), ir)
            && r == alloc_result(ir)
}

/// Allocates `blocks` blocks (at most as many as an inode holds) from `bmp`, each the
/// first available one, then allocates `nod` holding them (in order, the rest null) in
/// the first available slot of `tbl`, writing its block to the drive; returns a pointer
/// to it. When the blocks run out, the ones allocated so far stay allocated.
pub fn alloc_inode<E, W>(
    nod: &INode,
    blocks: u8,
    tbl: &mut InodeTable,
    bmp: &mut BlockBitmap,
    write: &W,
) -> (r: Result<InodePtr, AllocINodeError<E>>) where W: Fn(u64, &[u8]) -> Result<(), E>
    requires
        old(tbl)@.len() == INODES,
        forall|block: u64, buf: &[u8]| #[trigger] write.requires((block, buf)),
    ensures
        alloc_with_blocks_outcome(write, nod@, blocks, old(tbl)@, old(bmp)@, final(tbl)@, final(bmp)@, r),
{
    let n: u8 = if blocks < 2 * INODE_PTRS as u8 {
        blocks
    } else {
        2 * INODE_PTRS as u8
    };
    let ghost b0 = bmp@;
    assert(n as nat == capped_blocks(blocks));
    let mut list: Vec<u16> = Vec::new();
    let mut i: u8 = 0;
    while i < n
        invariant
            0 <= i <= n <= 48,
            b0 == old(bmp)@,
            alloc_blocks(b0, i as nat) == (BlockAlloc { blocks: list@, bmp: bmp@, ok: true }),
            list@.len() == i,
            n as nat == capped_blocks(blocks),
            tbl@ == old(tbl)@,
            forall|j: int| 0 <= j < list@.len() ==> 1 <= #[trigger] list@[j] < BLOCK_PTR_MAX,
        decreases n - i,
    {
        let ghost before = bmp@;
        let p = alloc_next_bmp(bmp);
        match p.get() {
            None => {
                proof {
                    lemma_none_free(before, 1);
                    assert(alloc_blocks(b0, (i + 1) as nat).ok == false);
                    lemma_alloc_stops(b0, (i + 1) as nat, n as nat);
                    assert(bmp@ == alloc_blocks(b0, n as nat).bmp);
                    assert(!alloc_blocks(b0, n as nat).ok);
                    assert(alloc_with_blocks_outcome(write, nod@, blocks, old(tbl)@, b0, tbl@, bmp@, Err(AllocINodeError::OutOfBlocks)));
                }
                return Err(AllocINodeError::OutOfBlocks);
            },
            Some(v) => {
                proof {
                    lemma_first_free(before, 1, v as int);
                }
                list.push(v);
            },
        }
        i = i + 1;
    }
    let mut node = nod.clone();
    node.check_wf();
    let ghost v0 = node@;
    let mut k: usize = 0;
    while k < INODE_PTRS
        invariant
            0 <= k <= INODE_PTRS,
            list@ == alloc_blocks(b0, n as nat).blocks,
            list@.len() <= 48,
            forall|j: int| 0 <= j < list@.len() ==> 1 <= #[trigger] list@[j] < BLOCK_PTR_MAX,
            node@ == (INodeView { blocks: node@.blocks, ..v0 }),
            node@.blocks.len() == INODE_PTRS,
            forall|j: int|
                0 <= j < k ==> #[trigger] node@.blocks[j] == dual_encoding(
                    block_or_null(list@, 2 * j),
                    block_or_null(list@, 2 * j + 1),
                ),
        decreases INODE_PTRS - k,
    {
        let fst = if 2 * k < list.len() {
            BlockPtr::new(list[2 * k])
        } else {
            BlockPtr::null()
        };
        let snd = if 2 * k + 1 < list.len() {
            BlockPtr::new(list[2 * k + 1])
        } else {
            BlockPtr::null()
        };
        let dual = DualBlockPtr::encode([&fst, &snd]);
        node.set_block(k, dual);
        k = k + 1;
    }
    assert(node@.blocks =~= with_blocks(clear_reserved(nod@), list@).blocks);
    assert(node@ == with_blocks(clear_reserved(nod@), list@));
    let ghost t0 = tbl@;
    let ir = crate::fs::table::alloc_inode(&node, tbl, write);
    assert(alloc_inode_outcome(write, t0, tbl@, node@, ir));
    let r = match ir {
        Ok(p) => Ok(p),
        Err(AllocInodeError::OutOfInodes) => Err(AllocINodeError::OutOfInodes),
        Err(AllocInodeError::UpdateInode(e)) => Err(AllocINodeError::WriteError(e)),
    };
    assert(r == alloc_result(ir));
    assert(alloc_with_blocks_outcome(write, nod@, blocks, t0, b0, tbl@, bmp@, r));
    r
}

/// Once an allocation of blocks failed, allocating more fails too, leaving the same
/// blocks and bitmap.
proof fn lemma_alloc_stops(bmp: Seq<bool>, i: nat, n: nat)
    requires
        i <= n,
        !alloc_blocks(bmp, i).ok,
    ensures
        alloc_blocks(bmp, n) == alloc_blocks(bmp, i),
    decreases n - i,
{
    if i < n {
        lemma_alloc_stops(bmp, i, (n - 1) as nat);
    }
}

} // verus!
