//! Utility functions used to help initialise a filesystem: reformatting a drive and
//! reading its inode table.
use vstd::prelude::*;

use crate::fs::header::{header_bytes, FilesystemHeader, HeaderView};
use crate::fs::table::{alloc_bmp, AllocBmpError, BlockBitmap, InodeTable};
use crate::fs::{
    clear_reserved, dual_first, dual_second, inode_from_bytes, INode, INodeView, INODES,
    INODE_PTRS, INODE_SIZE, INODE_START,
};

verus! {

/// The number of bytes in the inode table.
pub const TABLE_BYTES: usize = 17920;

/// What reformatting with `write` and a header whose view is `header` does: the header's
/// bytes are written to block 0 and, if that succeeds, a zeroed inode table to the first
/// table block; `r` is the first error, or the result of the second write.
pub open spec fn reformat_outcome<E, W: Fn(u64, &[u8]) -> Result<(), E>>(
    write: &W,
    header: HeaderView,
    r: Result<(), E>,
) -> bool {
    exists|hbuf: &[u8], hres: Result<(), E>|
        {
            &&& hbuf@ == header_bytes(header)
            &&& #[trigger] write.ensures((0u64, hbuf), hres)
            &&& match hres {
                Err(e) => r == Err::<(), E>(e),
                Ok(_) => exists|tbuf: &[u8], tres: Result<(), E>|
                    {
                        &&& tbuf@ == Seq::new(TABLE_BYTES as nat, |i: int| 0u8)
                        &&& #[trigger] write.ensures((INODE_START, tbuf), tres)
                        &&& r == tres
                    },
            }
        }
}

/// Reformats the drive with a zeroed out inode table and `header` as its filesystem header.
pub fn reformat_drive<E, W>(header: &FilesystemHeader, write: &W) -> (r: Result<(), E>) where
    W: Fn(u64, &[u8]) -> Result<(), E>,

    requires
        forall|buf: &[u8]| #[trigger] write.requires((0u64, buf)),
        forall|buf: &[u8]| #[trigger] write.requires((INODE_START, buf)),
    ensures
        reformat_outcome(write, header@, r),
{
    let hbytes = header.to_bytes();
    let hslice = hbytes.as_slice();
    let hres = write(0, hslice);
    match hres {
        Err(e) => Err(e),
        Ok(()) => {
            let zeros: Vec<u8> = vec![0u8; TABLE_BYTES];
            assert(zeros@ =~= Seq::new(TABLE_BYTES as nat, |i: int| 0u8));
            let tslice = zeros.as_slice();
            let tres = write(INODE_START, tslice);
            tres
        },
    }
}

/// The block pointer value at position `j` of an inode: the first or second pointer of
/// its `j / 2`th dual pointer.
pub open spec fn ptr_at(v: INodeView, j: int) -> int {
    if j % 2 == 0 {
        dual_first(v.blocks[j / 2])
    } else {
        dual_second(v.blocks[j / 2])
    }
}

/// The state of the block bitmap while marking an inode's blocks as used.
pub struct MarkState {
    pub bmp: Seq<bool>,
    pub used: nat,
    pub failed: Option<int>,
}

/// Marks the non-null blocks at the first `j` positions of `v` as used, in order,
/// stopping at the first block which already was.
pub open spec fn mark_node(bmp: Seq<bool>, used: nat, v: INodeView, j: int) -> MarkState
    decreases j,
{
    if j <= 0 {
        MarkState { bmp, used, failed: None }
    } else {
        let s = mark_node(bmp, used, v, j - 1);
        let p = ptr_at(v, j - 1);
        if s.failed is Some || p == 0 {
            s
        } else if s.bmp[p] {
            MarkState { failed: Some(p), ..s }
        } else {
            MarkState { bmp: s.bmp.update(p, true), used: s.used + 1, failed: None }
        }
    }
}

/// Once marking an inode's blocks has failed, it stays failed with the same state.
pub proof fn lemma_mark_node_failed(bmp: Seq<bool>, used: nat, v: INodeView, j: int, j2: int)
    requires
        0 <= j <= j2,
        mark_node(bmp, used, v, j).failed is Some,
    ensures
        mark_node(bmp, used, v, j2) == mark_node(bmp, used, v, j),
    decreases j2 - j,
{
    if j2 > j {
        lemma_mark_node_failed(bmp, used, v, j, j2 - 1);
    }
}

/// Marking the first `j` positions of an inode marks at most `j` blocks.
pub proof fn lemma_mark_node_used(bmp: Seq<bool>, used: nat, v: INodeView, j: int)
    requires
        0 <= j,
    ensures
        used <= mark_node(bmp, used, v, j).used <= used + j,
    decreases j,
{
    if j > 0 {
        lemma_mark_node_used(bmp, used, v, j - 1);
    }
}

/// The number of non-null block pointers among the first `j` positions of `v`.
pub open spec fn node_ptr_count(v: INodeView, j: int) -> nat
    decreases j,
{
    if j <= 0 {
        0
    } else {
        node_ptr_count(v, j - 1) + if ptr_at(v, j - 1) != 0 {
            1nat
        } else {
            0nat
        }
    }
}

/// The number of non-null block pointers of the inodes in use among the first `i` of
/// `nodes`.
pub open spec fn table_ptr_count(nodes: Seq<INodeView>, i: int) -> nat
    decreases i,
{
    if i <= 0 {
        0
    } else {
        table_ptr_count(nodes, i - 1) + if nodes[i - 1].links != 0 {
            node_ptr_count(nodes[i - 1], 48)
        } else {
            0nat
        }
    }
}

/// A block pointer of an inode is below `2^12`.
proof fn lemma_ptr_at_range(v: INodeView, j: int)
    requires
        0 <= j < 48,
        v.blocks.len() == 24,
    ensures
        0 <= ptr_at(v, j) < 4096,
{
    crate::fs::lemma_dual_decode_range(v.blocks[j / 2]);
}

/// Marking an inode's first `j` positions without failure marks every non-null block
/// among them, keeps every block already marked, and counts one per non-null pointer.
proof fn lemma_mark_node_marks(bmp: Seq<bool>, used: nat, v: INodeView, j: int)
    requires
        0 <= j <= 48,
        bmp.len() == 4096,
        v.blocks.len() == 24,
        mark_node(bmp, used, v, j).failed is None,
    ensures
        mark_node(bmp, used, v, j).bmp.len() == 4096,
        mark_node(bmp, used, v, j).used == used + node_ptr_count(v, j),
        forall|q: int| 0 <= q < 4096 && bmp[q] ==> #[trigger] mark_node(bmp, used, v, j).bmp[q],
        forall|k: int|
            0 <= k < j && ptr_at(v, k) != 0 ==> mark_node(bmp, used, v, j).bmp[#[trigger] ptr_at(
                v,
                k,
            )],
    decreases j,
{
    if j > 0 {
        let s = mark_node(bmp, used, v, j - 1);
        lemma_ptr_at_range(v, j - 1);
        if s.failed is Some {
            assert(mark_node(bmp, used, v, j) == s);
        }
        lemma_mark_node_marks(bmp, used, v, j - 1);
        assert forall|k: int|
            0 <= k < j - 1 && ptr_at(v, k) != 0 implies mark_node(bmp, used, v, j).bmp[#[trigger] ptr_at(
            v,
            k,
        )] by {
            lemma_ptr_at_range(v, k);
        }
    }
}

/// Loading the first `i` inodes of `nodes` without failure marks every non-null block of
/// every inode in use among them, keeps every block already marked, and counts one block
/// per such pointer.
proof fn lemma_load_nodes_marks(nodes: Seq<INodeView>, tbl: Seq<INodeView>, bmp: Seq<bool>, i: int)
    requires
        0 <= i <= nodes.len(),
        bmp.len() == 4096,
        forall|n: int| 0 <= n < nodes.len() ==> (#[trigger] nodes[n]).blocks.len() == 24,
        load_nodes(nodes, tbl, bmp, i).failed is None,
    ensures
        load_nodes(nodes, tbl, bmp, i).bmp.len() == 4096,
        load_nodes(nodes, tbl, bmp, i).used == table_ptr_count(nodes, i),
        forall|q: int| 0 <= q < 4096 && bmp[q] ==> #[trigger] load_nodes(nodes, tbl, bmp, i).bmp[q],
        forall|n: int, k: int|
            0 <= n < i && 0 <= k < 48 && nodes[n].links != 0 && ptr_at(nodes[n], k) != 0
                ==> load_nodes(nodes, tbl, bmp, i).bmp[#[trigger] ptr_at(nodes[n], k)],
    decreases i,
{
    if i > 0 {
        let s = load_nodes(nodes, tbl, bmp, i - 1);
        if s.failed is Some {
            assert(load_nodes(nodes, tbl, bmp, i) == s);
        }
        lemma_load_nodes_marks(nodes, tbl, bmp, i - 1);
        let v = nodes[i - 1];
        if v.links != 0 {
            lemma_mark_node_marks(s.bmp, s.used, v, 48);
            let m = mark_node(s.bmp, s.used, v, 48);
            assert forall|n: int, k: int|
                0 <= n < i && 0 <= k < 48 && nodes[n].links != 0 && ptr_at(nodes[n], k) != 0 implies load_nodes(
                nodes,
                tbl,
                bmp,
                i,
            ).bmp[#[trigger] ptr_at(nodes[n], k)] by {
                lemma_ptr_at_range(nodes[n], k);
                if n < i - 1 {
                    assert(s.bmp[ptr_at(nodes[n], k)]);
                    assert(m.bmp[ptr_at(nodes[n], k)]);
                } else {
                    assert(m.bmp[ptr_at(v, k)]);
                }
            }
        }
    }
}

/// Loading a whole inode table without a block used twice marks in the bitmap every
/// non-null block pointer of every inode in use, and counts exactly one used block per
/// such pointer.
pub proof fn lemma_load_marks_every_block(nodes: Seq<INodeView>, tbl: Seq<INodeView>, bmp: Seq<bool>)
    requires
        nodes.len() == INODES,
        bmp.len() == 4096,
        forall|n: int| 0 <= n < nodes.len() ==> (#[trigger] nodes[n]).blocks.len() == 24,
        load_nodes(nodes, tbl, bmp, INODES as int).failed is None,
    ensures
        load_nodes(nodes, tbl, bmp, INODES as int).used == table_ptr_count(nodes, INODES as int),
        forall|n: int, k: int|
            0 <= n < INODES && 0 <= k < 48 && nodes[n].links != 0 && ptr_at(nodes[n], k) != 0
                ==> load_nodes(nodes, tbl, bmp, INODES as int).bmp[#[trigger] ptr_at(nodes[n], k)],
{
    lemma_load_nodes_marks(nodes, tbl, bmp, INODES as int);
}

/// The state of the table and bitmap while reading an inode table.
pub struct LoadState {
    pub tbl: Seq<INodeView>,
    pub bmp: Seq<bool>,
    pub active: nat,
    pub used: nat,
    pub failed: Option<int>,
}

/// Reads the first `i` inodes of `nodes` into the table, skipping available inodes and
/// marking the blocks of the others as used, stopping at the first block used twice.
pub open spec fn load_nodes(nodes: Seq<INodeView>, tbl: Seq<INodeView>, bmp: Seq<bool>, i: int) -> LoadState
    decreases i,
{
    if i <= 0 {
        LoadState { tbl, bmp, active: 0, used: 0, failed: None }
    } else {
        let s = load_nodes(nodes, tbl, bmp, i - 1);
        let v = nodes[i - 1];
        if s.failed is Some || v.links == 0 {
            s
        } else {
            let m = mark_node(s.bmp, s.used, v, 48);
            LoadState {
                tbl: s.tbl.update(i - 1, clear_reserved(v)),
                bmp: m.bmp,
                active: s.active + 1,
                used: m.used,
                failed: m.failed,
            }
        }
    }
}

/// Once reading an inode table has failed, it stays failed with the same state.
pub proof fn lemma_load_nodes_failed(nodes: Seq<INodeView>, tbl: Seq<INodeView>, bmp: Seq<bool>, i: int, i2: int)
    requires
        0 <= i <= i2,
        load_nodes(nodes, tbl, bmp, i).failed is Some,
    ensures
        load_nodes(nodes, tbl, bmp, i2) == load_nodes(nodes, tbl, bmp, i),
    decreases i2 - i,
{
    if i2 > i {
        lemma_load_nodes_failed(nodes, tbl, bmp, i, i2 - 1);
    }
}

/// The inodes stored in the bytes of an inode table.
pub open spec fn table_nodes(bytes: Seq<u8>) -> Seq<INodeView> {
    Seq::new(
        INODES as nat,
        |i: int| inode_from_bytes(bytes.subrange(INODE_SIZE * i, INODE_SIZE * i + INODE_SIZE)),
    )
}

/// An error created when trying to read over the inode table.
#[derive(Debug)]
pub enum ReadTblError<E> {
    /// The table couldn't be read from the drive.
    ReadError(E),
    /// A table entry couldn't be accessed.
    ExmapError,
    /// A block was used by more than one inode.
    AllocBmp(AllocBmpError),
}

/// Marks the blocks of `nod` as used in `bmp`, counting them in `used`.
fn mark_blocks<E>(nod: &INode, bmp: &mut BlockBitmap, used: &mut u32) -> (r: Result<(), ReadTblError<E>>)
    requires
        old(used) + 48 <= u32::MAX,
    ensures
        ({
            let m = mark_node(old(bmp)@, *old(used) as nat, nod@, 48);
            &&& final(bmp)@ == m.bmp
            &&& *final(used) == m.used
            &&& *final(used) <= *old(used) + 48
            &&& match m.failed {
                None => r is Ok,
                Some(p) => r matches Err(ReadTblError::AllocBmp(AllocBmpError::AlreadyInUse(b)))
                    && b@ == Some(p as u16),
            }
        }),
{
    let ghost b0 = bmp@;
    let ghost u0 = *used as nat;
    let ghost v = nod@;
    let mut k: usize = 0;
    while k < INODE_PTRS
        invariant
            0 <= k <= INODE_PTRS,
            v == nod@,
            b0 == old(bmp)@,
            u0 == *old(used) as nat,
            u0 + 48 <= u32::MAX,
            mark_node(b0, u0, v, 2 * k) == (MarkState { bmp: bmp@, used: *used as nat, failed: None }),
            *used <= u0 + 2 * k,
        decreases INODE_PTRS - k,
    {
        let dual = nod.block(k);
        let ptrs = dual.decode();
        let mut half: usize = 0;
        while half < 2
            invariant
                0 <= half <= 2,
                k < INODE_PTRS,
                v == nod@,
                b0 == old(bmp)@,
                u0 == *old(used) as nat,
                dual@ == v.blocks[k as int],
                ptrs@[0]@ == crate::fs::block_ptr_value(dual_first(dual@) as u16),
                ptrs@[1]@ == crate::fs::block_ptr_value(dual_second(dual@) as u16),
                dual_first(dual@) < 4096,
                dual_second(dual@) < 4096,
                u0 + 48 <= u32::MAX,
                mark_node(b0, u0, v, 2 * k + half) == (MarkState {
                    bmp: bmp@,
                    used: *used as nat,
                    failed: None,
                }),
                *used <= u0 + 2 * k + half,
            decreases 2 - half,
        {
            let blk = &ptrs[half];
            let ghost j = 2 * k + half;
            assert(j / 2 == k && j % 2 == half);
            assert(ptr_at(v, j) == if half == 0 { dual_first(dual@) } else { dual_second(dual@) });
            if blk.is_valid() {
                match alloc_bmp(blk, bmp) {
                    Ok(()) => {
                        *used = *used + 1;
                    },
                    Err(e) => {
                        proof {
                            let p = ptr_at(v, j);
                            assert(blk@ == Some(p as u16));
                            assert(bmp@[p]);
                            assert(mark_node(b0, u0, v, j + 1).failed == Some(p));
                            lemma_mark_node_failed(b0, u0, v, j + 1, 48);
                        }
                        return Err(ReadTblError::AllocBmp(e));
                    },
                }
            }
            half = half + 1;
        }
        k = k + 1;
    }
    Ok(())
}

/// Reads the bytes of an inode table into `tbl` (keeping each inode at its index) and
/// marks the blocks of every inode in use as used in `bmp`, returning the number of
/// inodes in use and of blocks marked. Fails on the first block used twice.
pub fn load_table<E>(tbl: &mut InodeTable, bmp: &mut BlockBitmap, bytes: &[u8]) -> (r: Result<
    (u32, u32),
    ReadTblError<E>,
>)
    requires
        old(tbl)@.len() == INODES,
        bytes@.len() == TABLE_BYTES,
    ensures
        ({
            let s = load_nodes(table_nodes(bytes@), old(tbl)@, old(bmp)@, INODES as int);
            &&& final(tbl)@ == s.tbl
            &&& final(bmp)@ == s.bmp
            &&& match s.failed {
                None => r == Ok::<(u32, u32), ReadTblError<E>>((s.active as u32, s.used as u32)),
                Some(p) => r matches Err(ReadTblError::AllocBmp(AllocBmpError::AlreadyInUse(b)))
                    && b@ == Some(p as u16),
            }
        }),
        r matches Ok((_, used)) ==> {
            let nodes = table_nodes(bytes@);
            &&& used == table_ptr_count(nodes, INODES as int)
            &&& forall|n: int, k: int|
                0 <= n < INODES && 0 <= k < 48 && nodes[n].links != 0 && ptr_at(nodes[n], k) != 0
                    ==> final(bmp)@[#[trigger] ptr_at(nodes[n], k)]
        },
{
    proof {
        bmp.lemma_len();
    }
    let ghost nodes = table_nodes(bytes@);
    let ghost t0 = tbl@;
    let ghost b0 = bmp@;
    let mut active: u32 = 0;
    let mut used: u32 = 0;
    let mut i: usize = 0;
    while i < INODES
        invariant
            0 <= i <= INODES,
            bytes@.len() == TABLE_BYTES,
            nodes == table_nodes(bytes@),
            t0 == old(tbl)@,
            b0 == old(bmp)@,
            t0.len() == INODES,
            tbl@.len() == INODES,
            load_nodes(nodes, t0, b0, i as int) == (LoadState {
                tbl: tbl@,
                bmp: bmp@,
                active: active as nat,
                used: used as nat,
                failed: None,
            }),
            active <= i,
            used <= 48 * i,
        decreases INODES - i,
    {
        let nod = INode::from_raw_at(bytes, i * INODE_SIZE);
        assert(nod@ == nodes[i as int]);
        if !nod.is_available() {
            active = active + 1;
            tbl.set(i, nod.clone());
            let res = mark_blocks(&nod, bmp, &mut used);
            match res {
                Err(e) => {
                    proof {
                        lemma_load_nodes_failed(nodes, t0, b0, i + 1, INODES as int);
                    }
                    return Err(e);
                },
                Ok(()) => {},
            }
        }
        i = i + 1;
    }
    proof {
        assert forall|n: int| 0 <= n < nodes.len() implies (#[trigger] nodes[n]).blocks.len() == 24 by {}
        lemma_load_marks_every_block(nodes, t0, b0);
    }
    Ok((active, used))
}

/// The bytes of the inode table when a read of it returned `data`: those returned, with
/// any missing ones read as zero.
pub open spec fn table_bytes_read(data: Seq<u8>) -> Seq<u8> {
    Seq::new(
        TABLE_BYTES as nat,
        |i: int|
            if i < data.len() {
                data[i]
            } else {
                0u8
            },
    )
}

/// What reading the inode table with `read` does, taking the table from `t0` to `t1` and
/// the bitmap from `b0` to `b1` and returning `r`: the whole table is asked of `read`; on
/// an error nothing changes, otherwise the table is loaded as [`load_table`] does.
pub open spec fn read_table_outcome<E, R: Fn(u64, usize) -> Result<Vec<u8>, E>>(
    read: &R,
    t0: Seq<INodeView>,
    b0: Seq<bool>,
    t1: Seq<INodeView>,
    b1: Seq<bool>,
    r: Result<(u32, u32), ReadTblError<E>>,
) -> bool {
    exists|res: Result<Vec<u8>, E>|
        {
            &&& #[trigger] read.ensures((INODE_START, TABLE_BYTES), res)
            &&& match res {
                Err(e) => r matches Err(ReadTblError::ReadError(e2)) && e2 == e && t1 == t0 && b1
                    == b0,
                Ok(data) => {
                    let s = load_nodes(
                        table_nodes(table_bytes_read(data@)),
                        t0,
                        b0,
                        INODES as int,
                    );
                    &&& t1 == s.tbl
                    &&& b1 == s.bmp
                    &&& match s.failed {
                        None => r == Ok::<(u32, u32), ReadTblError<E>>(
                            (s.active as u32, s.used as u32),
                        ),
                        Some(p) => r matches Err(
                            ReadTblError::AllocBmp(AllocBmpError::AlreadyInUse(b)),
                        ) && b@ == Some(p as u16),
                    }
                },
            }
        }
}

/// Reads the inode table with `read` (given the table's first block and its length in
/// bytes) into `tbl`, updating `bmp` accordingly, and returns the number of inodes in use
/// and of blocks used. Bytes the reader doesn't return read as zero.
pub fn read_table<E, R>(tbl: &mut InodeTable, bmp: &mut BlockBitmap, read: &R) -> (r: Result<
    (u32, u32),
    ReadTblError<E>,
>) where R: Fn(u64, usize) -> Result<Vec<u8>, E>
    requires
        old(tbl)@.len() == INODES,
        read.requires((INODE_START, TABLE_BYTES)),
    ensures
        read_table_outcome(read, old(tbl)@, old(bmp)@, final(tbl)@, final(bmp)@, r),
{
    let res = read(INODE_START, TABLE_BYTES);
    match res {
        Err(e) => Err(ReadTblError::ReadError(e)),
        Ok(data) => {
            let mut buf: Vec<u8> = vec![0u8; TABLE_BYTES];
            let n = data.len();
            let mut i: usize = 0;
            while i < TABLE_BYTES
                invariant
                    0 <= i <= TABLE_BYTES,
                    n == data@.len(),
                    buf@.len() == TABLE_BYTES,
                    forall|j: int| 0 <= j < i ==> buf@[j] == (if j < data@.len() {
                        data@[j]
                    } else {
                        0u8
                    }),
                    forall|j: int| i <= j < TABLE_BYTES ==> buf@[j] == 0u8,
                decreases TABLE_BYTES - i,
            {
                if i < n {
                    buf.set(i, data[i]);
                }
                i = i + 1;
            }
            assert(buf@ =~= table_bytes_read(data@));
            load_table(tbl, bmp, buf.as_slice())
        },
    }
}

} // verus!
