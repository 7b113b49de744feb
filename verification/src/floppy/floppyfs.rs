//! The floppy filesystem's glue: transfers split at track boundaries, and mounting the
//! filesystem at startup.
use vstd::prelude::*;

use crate::floppy::{CYL_BOUNDARY, SECTORS, SECTOR_SIZE};
use crate::fs::header::{
    header_from_bytes, release_bits, FilesystemHeader, FsFeatures, HeaderView, HEADER_SIZE,
    RESERVED_BYTES,
};
use crate::fs::init::{
    read_table, read_table_outcome, reformat_drive, reformat_outcome, ReadTblError, TABLE_BYTES,
};

use crate::fs::table::{BlockBitmap, InodeTable};
use crate::fs::{INodeView, INODES, INODE_START, MAGIC};
use crate::startup::{ExitCode, StartupFlags};
use crate::util::sync::UnsafeFlag;

verus! {

/// The first block of the track after the one holding `block`.
pub open spec fn next_track(block: u64) -> int {
    (block / (SECTORS as u64) + 1) * SECTORS
}

/// The number of bytes before the first track boundary after `block`, at most `len`.
pub open spec fn first_len(block: u64, len: int) -> int {
    let d = (SECTORS - block % (SECTORS as u64)) * SECTOR_SIZE;
    if d < len {
        d
    } else {
        len
    }
}

/// The number of transfers a buffer of `len` bytes starting at `block` is split into:
/// one up to the first track boundary, then one per (part of a) track.
pub open spec fn segment_count(block: u64, len: int) -> int {
    1 + (len - first_len(block, len) + CYL_BOUNDARY - 1) / (CYL_BOUNDARY as int)
}

/// The `k`th transfer of a buffer of `len` bytes starting at `block`: its block and the
/// range of the buffer it covers.
pub open spec fn segment(block: u64, len: int, k: int) -> (int, int, int) {
    let f = first_len(block, len);
    if k == 0 {
        (block as int, 0, f)
    } else {
        let j = k - 1;
        let end = f + CYL_BOUNDARY * (j + 1);
        (next_track(block) + SECTORS * j, f + CYL_BOUNDARY * j, if end < len {
            end
        } else {
            len
        })
    }
}

/// The transfers of a buffer of `len` bytes starting at `block` cover it exactly and in
/// order: the first starts at its beginning, each ends where the next starts, the last
/// ends at its end.
pub proof fn lemma_segments_cover(block: u64, len: int)
    requires
        len >= 0,
    ensures
        segment(block, len, 0).1 == 0,
        forall|k: int|
            0 <= k < segment_count(block, len) - 1 ==> #[trigger] segment(block, len, k).2
                == segment(block, len, k + 1).1,
        forall|k: int|
            0 <= k < segment_count(block, len) ==> #[trigger] segment(block, len, k).1 <= segment(
                block,
                len,
                k,
            ).2,
        segment(block, len, segment_count(block, len) - 1).2 == len,
{
    let f = first_len(block, len);
    let c = segment_count(block, len);
    lemma_count_bounds(len - f);
    assert forall|k: int| 0 <= k < c - 1 implies #[trigger] segment(block, len, k).2 == segment(
        block,
        len,
        k + 1,
    ).1 by {
        if k >= 1 {
            lemma_track_count(len - f, k + 1);
            assert(len - f > CYL_BOUNDARY * k);
        } else {
            lemma_track_count(len - f, 1);
        }
    }
    assert forall|k: int| 0 <= k < c implies #[trigger] segment(block, len, k).1 <= segment(
        block,
        len,
        k,
    ).2 by {
        if k >= 1 {
            lemma_track_count(len - f, k);
        }
    }
    if c - 1 >= 1 {
        lemma_track_count(len - f, c);
    }
}

/// The number of tracks a rest of `d` bytes needs is at most one more than the tracks it
/// fills.
proof fn lemma_count_bounds(d: int)
    requires
        d >= 0,
    ensures
        CYL_BOUNDARY * ((d + CYL_BOUNDARY - 1) / (CYL_BOUNDARY as int)) >= d,
        d > 0 ==> CYL_BOUNDARY * ((d + CYL_BOUNDARY - 1) / (CYL_BOUNDARY as int) - 1) < d,
        d == 0 ==> (d + CYL_BOUNDARY - 1) / (CYL_BOUNDARY as int) == 0,
{
    let m = CYL_BOUNDARY as int;
    assert(m * ((d + m - 1) / m) >= d) by (nonlinear_arith)
        requires
            m == 9216,
            d >= 0,
    ;
    assert(d > 0 ==> m * ((d + m - 1) / m - 1) < d) by (nonlinear_arith)
        requires
            m == 9216,
            d >= 0,
    ;
}

/// No transfer crosses a track boundary: each starts at a sector of a track and holds no
/// more bytes than the sectors left in that track.
pub proof fn lemma_segment_in_track(block: u64, len: int, k: int)
    requires
        len >= 0,
        0 <= k < segment_count(block, len),
    ensures
        (segment(block, len, k).0 % (SECTORS as int)) * SECTOR_SIZE + segment(block, len, k).2
            - segment(block, len, k).1 <= SECTORS * SECTOR_SIZE,
{
    let f = first_len(block, len);
    if k >= 1 {
        let j = k - 1;
        let q = block / (SECTORS as u64);
        assert(((q + 1) * 18 + 18 * j) % 18 == 0) by (nonlinear_arith)
            requires
                j >= 0,
                q >= 0,
        ;
        lemma_track_count(len - f, k);
    }
}

/// `bytes` were handed to `w` to be written at `block`, and `w` returned `res`.
pub open spec fn chunk_written<E, W: Fn(u64, &[u8]) -> Result<(), E>>(
    w: &W,
    block: u64,
    bytes: Seq<u8>,
    res: Result<(), E>,
) -> bool {
    exists|sl: &[u8]| sl@ == bytes && #[trigger] w.ensures((block, sl), res)
}

/// The `k`th transfer of `data` starting at `block` was handed to `w`, which returned `res`.
pub open spec fn segment_written<E, W: Fn(u64, &[u8]) -> Result<(), E>>(
    w: &W,
    data: Seq<u8>,
    block: u64,
    k: int,
    res: Result<(), E>,
) -> bool {
    let seg = segment(block, data.len() as int, k);
    chunk_written(w, seg.0 as u64, data.subrange(seg.1, seg.2), res)
}

/// Counting the tracks of a rest of `d` bytes: `d` fills more than `k - 1` tracks exactly
/// when it needs at least `k` transfers.
proof fn lemma_track_count(d: int, k: int)
    requires
        d >= 0,
        k >= 1,
    ensures
        d > CYL_BOUNDARY * (k - 1) ==> (d + CYL_BOUNDARY - 1) / (CYL_BOUNDARY as int) >= k,
        d <= CYL_BOUNDARY * (k - 1) && (k == 1 || d > CYL_BOUNDARY * (k - 2)) ==> (d
            + CYL_BOUNDARY - 1) / (CYL_BOUNDARY as int) == k - 1,
{
    let m = CYL_BOUNDARY as int;
    assert(d > m * (k - 1) ==> (d + m - 1) / m >= k) by (nonlinear_arith)
        requires
            m == 9216,
            k >= 1,
            d >= 0,
    ;
    assert(d <= m * (k - 1) && (k == 1 || d > m * (k - 2)) ==> (d + m - 1) / m == k - 1)
        by (nonlinear_arith)
        requires
            m == 9216,
            k >= 1,
            d >= 0,
    ;
}

/// Copies `buf[start..end]`.
fn copy_range(buf: &[u8], start: usize, end: usize) -> (r: Vec<u8>)
    requires
        start <= end <= buf@.len(),
    ensures
        r@ == buf@.subrange(start as int, end as int),
{
    let mut out: Vec<u8> = Vec::with_capacity(end - start);
    let mut i = start;
    while i < end
        invariant
            start <= i <= end <= buf@.len(),
            out@ == buf@.subrange(start as int, i as int),
        decreases end - i,
    {
        out.push(buf[i]);
        assert(out@ =~= buf@.subrange(start as int, i + 1));
        i = i + 1;
    }
    out
}

/// Writes `buf` to the drive starting at `block` with `disk_write`, splitting it at track
/// boundaries (18 sectors) so that no single write crosses one.
pub fn write<E, W>(block: u64, buf: &[u8], disk_write: &W) -> (r: Result<(), E>) where
    W: Fn(u64, &[u8]) -> Result<(), E>,

    requires
        block + buf@.len() + 2 * SECTORS <= u64::MAX,
        forall|b: u64, s: &[u8]| #[trigger] disk_write.requires((b, s)),
    ensures
        r is Ok ==> forall|k: int|
            0 <= k < segment_count(block, buf@.len() as int) ==> #[trigger] segment_written(
                disk_write,
                buf@,
                block,
                k,
                Ok(()),
            ),
        r is Err ==> exists|k: int|
            {
                &&& 0 <= k < segment_count(block, buf@.len() as int)
                &&& forall|j: int| 0 <= j < k ==> #[trigger] segment_written(
                    disk_write,
                    buf@,
                    block,
                    j,
                    Ok(()),
                )
                &&& #[trigger] segment_written(disk_write, buf@, block, k, r)
            },
{
    let ghost data = buf@;
    let ghost len = buf@.len() as int;
    let len_exec = buf.len();
    let rem = block % (SECTORS as u64);
    let dist = (SECTORS as u64 - rem) as usize;
    let base = block - rem + SECTORS as u64;
    assert(base == next_track(block));
    let fst = if dist * SECTOR_SIZE < len_exec {
        dist * SECTOR_SIZE
    } else {
        len_exec
    };
    assert(fst == first_len(block, len));
    let first = copy_range(buf, 0, fst);
    let fslice = first.as_slice();
    let res = disk_write(block, fslice);
    assert(fslice@ == data.subrange(0, fst as int));
    assert(segment(block, len, 0) == (block as int, 0int, fst as int));
    assert(chunk_written(disk_write, block, fslice@, res));
    assert(segment_written(disk_write, data, block, 0, res));
    if let Err(e) = res {
        return Err(e);
    }
    assert(res matches Ok(u) && u == ());
    let mut k: usize = 1;
    let mut pos = fst;
    while pos < len_exec
        invariant
            data == buf@,
            len == data.len(),
            len_exec == len,
            block + len + 2 * SECTORS <= u64::MAX,
            base == next_track(block),
            fst == first_len(block, len),
            1 <= k,
            fst <= pos <= len,
            pos < len ==> pos == fst + CYL_BOUNDARY * (k - 1),
            pos == len ==> k == 1 || fst + CYL_BOUNDARY * (k - 2) < len <= fst + CYL_BOUNDARY * (k - 1),
            k == 1 ==> pos == fst,
            forall|b: u64, s: &[u8]| #[trigger] disk_write.requires((b, s)),
            forall|j: int| 0 <= j < k ==> #[trigger] segment_written(disk_write, data, block, j, Ok(())),
        decreases len_exec - pos,
    {
        let end = if len_exec - pos > CYL_BOUNDARY {
            pos + CYL_BOUNDARY
        } else {
            len_exec
        };
        assert(SECTORS * (k - 1) <= len) by (nonlinear_arith)
            requires
                pos == fst + 9216 * (k - 1),
                pos < len,
                k >= 1,
                fst >= 0,
        ;
        let blk = base + (SECTORS as u64) * ((k - 1) as u64);
        let chunk = copy_range(buf, pos, end);
        let cslice = chunk.as_slice();
        let res = disk_write(blk, cslice);
        assert(segment(block, len, k as int) == (blk as int, pos as int, end as int));
        assert(chunk_written(disk_write, blk, cslice@, res));
        assert(segment_written(disk_write, data, block, k as int, res));
        if res.is_err() {
            proof {
                lemma_track_count(len - fst, k as int);
            }
            return res;
        }
        assert(res matches Ok(u) && u == ());
        k = k + 1;
        pos = end;
    }
    proof {
        lemma_track_count(len - fst, k as int);
        assert(segment_count(block, len) == k);
    }
    Ok(())
}

/// What a read that returned `data` puts in a region of `len` bytes: the bytes returned,
/// with any missing ones read as zero.
pub open spec fn padded(data: Seq<u8>, len: int) -> Seq<u8> {
    Seq::new(
        len as nat,
        |i: int|
            if i < data.len() {
                data[i]
            } else {
                0u8
            },
    )
}

/// The `k`th transfer of a `len` byte read starting at `block` was asked of `r`, which
/// returned `res`.
pub open spec fn segment_read<E, R: Fn(u64, usize) -> Result<Vec<u8>, E>>(
    r: &R,
    block: u64,
    len: int,
    k: int,
    res: Result<Vec<u8>, E>,
) -> bool {
    let seg = segment(block, len, k);
    r.ensures((seg.0 as u64, (seg.2 - seg.1) as usize), res)
}

/// The `k`th transfer of a read into `buf` starting at `block` returned `data`, which is
/// where it belongs in `buf`.
pub open spec fn segment_holds<E, R: Fn(u64, usize) -> Result<Vec<u8>, E>>(
    r: &R,
    buf: Seq<u8>,
    block: u64,
    k: int,
    data: Vec<u8>,
) -> bool {
    let seg = segment(block, buf.len() as int, k);
    &&& segment_read(r, block, buf.len() as int, k, Ok(data))
    &&& buf.subrange(seg.1, seg.2) == padded(data@, seg.2 - seg.1)
}

/// The `k`th transfer of a read into `buf` starting at `block` succeeded and its bytes are
/// where they belong.
pub open spec fn segment_filled<E, R: Fn(u64, usize) -> Result<Vec<u8>, E>>(
    r: &R,
    buf: Seq<u8>,
    block: u64,
    k: int,
) -> bool {
    exists|data: Vec<u8>| #[trigger] segment_holds(r, buf, block, k, data)
}

/// A read into `before` starting at `block` stopped at its `k`th transfer, which failed with
/// `e`, leaving `after`: the transfers before it are in place, the rest is untouched.
pub open spec fn read_failed_at<E, R: Fn(u64, usize) -> Result<Vec<u8>, E>>(
    r: &R,
    before: Seq<u8>,
    after: Seq<u8>,
    block: u64,
    k: int,
    e: E,
) -> bool {
    let len = before.len() as int;
    &&& 0 <= k < segment_count(block, len)
    &&& forall|j: int| 0 <= j < k ==> #[trigger] segment_filled(r, after, block, j)
    &&& segment_read(r, block, len, k, Err(e))
    &&& after.subrange(segment(block, len, k).1, len) == before.subrange(segment(block, len, k).1, len)
}

/// A read into `before` starting at `block` failed with `e` at one of its transfers,
/// leaving `after`.
pub open spec fn read_failed<E, R: Fn(u64, usize) -> Result<Vec<u8>, E>>(
    r: &R,
    before: Seq<u8>,
    after: Seq<u8>,
    block: u64,
    e: E,
) -> bool {
    exists|k: int| #[trigger] read_failed_at(r, before, after, block, k, e)
}

/// Puts `data` (padded with zeros) into `buf[start..end]`.
pub(crate) fn fill(buf: &mut [u8], start: usize, end: usize, data: &Vec<u8>)
    requires
        start <= end <= old(buf)@.len(),
    ensures
        final(buf)@ == old(buf)@.subrange(0, start as int) + padded(data@, end - start)
            + old(buf)@.subrange(end as int, old(buf)@.len() as int),
{
    let n = data.len();
    let mut i = start;
    while i < end
        invariant
            start <= i <= end <= buf@.len(),
            buf@.len() == old(buf)@.len(),
            n == data@.len(),
            forall|j: int| 0 <= j < start ==> buf@[j] == old(buf)@[j],
            forall|j: int| end <= j < buf@.len() ==> buf@[j] == old(buf)@[j],
            forall|j: int| start <= j < i ==> buf@[j] == padded(data@, end - start)[j - start],
        decreases end - i,
    {
        let v = if i - start < n {
            data[i - start]
        } else {
            0u8
        };
        buf[i] = v;
        i = i + 1;
    }
    assert(buf@ =~= old(buf)@.subrange(0, start as int) + padded(data@, end - start)
        + old(buf)@.subrange(end as int, old(buf)@.len() as int));
}

/// Reads into `buf` from the drive starting at `block` with `disk_read` (given a block and
/// a length), splitting the read at track boundaries (18 sectors) so that no single read
/// crosses one. Bytes the reader doesn't return read as zero.
pub fn read<E, R>(block: u64, buf: &mut [u8], disk_read: &R) -> (r: Result<(), E>) where
    R: Fn(u64, usize) -> Result<Vec<u8>, E>,

    requires
        block + old(buf)@.len() + 2 * SECTORS <= u64::MAX,
        forall|b: u64, l: usize| #[trigger] disk_read.requires((b, l)),
    ensures
        final(buf)@.len() == old(buf)@.len(),
        r is Ok ==> forall|k: int|
            0 <= k < segment_count(block, old(buf)@.len() as int) ==> #[trigger] segment_filled(
                disk_read,
                final(buf)@,
                block,
                k,
            ),
        r matches Err(e) ==> read_failed(disk_read, old(buf)@, final(buf)@, block, e),
{
    let ghost orig = buf@;
    let ghost len = buf@.len() as int;
    let len_exec = buf.len();
    let rem = block % (SECTORS as u64);
    let dist = (SECTORS as u64 - rem) as usize;
    let base = block - rem + SECTORS as u64;
    assert(base == next_track(block));
    let fst = if dist * SECTOR_SIZE < len_exec {
        dist * SECTOR_SIZE
    } else {
        len_exec
    };
    assert(fst == first_len(block, len));
    assert(segment(block, len, 0) == (block as int, 0int, fst as int));
    let res = disk_read(block, fst);
    let data = match res {
        Err(e) => {
            proof {
                assert(segment_read(disk_read, block, len, 0, Err(e)));
                assert(segment_count(block, len) >= 1);
                assert(buf@.subrange(0, len) =~= orig.subrange(0, len));
                assert(read_failed_at(disk_read, orig, buf@, block, 0, e));
                assert(read_failed(disk_read, orig, buf@, block, e));
            }
            return Err(e);
        },
        Ok(data) => data,
    };
    assert(segment_read(disk_read, block, len, 0, Ok(data)));
    fill(buf, 0, fst, &data);
    let ghost mut datas: Seq<Vec<u8>> = seq![data];
    assert(buf@.subrange(0, fst as int) =~= padded(data@, fst as int));
    assert(segment_holds(disk_read, buf@, block, 0, datas[0]));
    let mut k: usize = 1;
    let mut pos = fst;
    while pos < len_exec
        invariant
            len == orig.len(),
            orig == old(buf)@,
            buf@.len() == len,
            len_exec == len,
            block + len + 2 * SECTORS <= u64::MAX,
            base == next_track(block),
            fst == first_len(block, len),
            1 <= k,
            datas.len() == k,
            fst <= pos <= len,
            pos < len ==> pos == fst + CYL_BOUNDARY * (k - 1),
            pos == len ==> k == 1 || fst + CYL_BOUNDARY * (k - 2) < len <= fst + CYL_BOUNDARY * (k
                - 1),
            k == 1 ==> pos == fst,
            forall|b: u64, l: usize| #[trigger] disk_read.requires((b, l)),
            forall|j: int| 0 <= j < k ==> #[trigger] segment_holds(disk_read, buf@, block, j, datas[j]),
            forall|j: int| 0 <= j < k ==> segment(block, len, j).2 <= pos,
            buf@.subrange(pos as int, len) == orig.subrange(pos as int, len),
        decreases len_exec - pos,
    {
        let end = if len_exec - pos > CYL_BOUNDARY {
            pos + CYL_BOUNDARY
        } else {
            len_exec
        };
        assert(SECTORS * (k - 1) <= len) by (nonlinear_arith)
            requires
                pos == fst + 9216 * (k - 1),
                pos < len,
                k >= 1,
                fst >= 0,
        ;
        let blk = base + (SECTORS as u64) * ((k - 1) as u64);
        assert(segment(block, len, k as int) == (blk as int, pos as int, end as int));
        let res = disk_read(blk, end - pos);
        let data = match res {
            Err(e) => {
                proof {
                    assert(segment_read(disk_read, block, len, k as int, Err(e)));
                    lemma_track_count(len - fst, k as int);
                    assert(k < segment_count(block, len));
                    assert forall|j: int| 0 <= j < k implies #[trigger] segment_filled(
                        disk_read,
                        buf@,
                        block,
                        j,
                    ) by {
                        assert(segment_holds(disk_read, buf@, block, j, datas[j]));
                    }
                    assert(read_failed_at(disk_read, orig, buf@, block, k as int, e));
                    assert(read_failed(disk_read, orig, buf@, block, e));
                }
                return Err(e);
            },
            Ok(data) => data,
        };
        assert(segment_read(disk_read, block, len, k as int, Ok(data)));
        let ghost before = buf@;
        fill(buf, pos, end, &data);
        proof {
            let old_datas = datas;
            datas = datas.push(data);
            assert forall|j: int| 0 <= j < k + 1 implies #[trigger] segment_holds(
                disk_read,
                buf@,
                block,
                j,
                datas[j],
            ) by {
                if j < k {
                    assert(datas[j] == old_datas[j]);
                    assert(segment_holds(disk_read, before, block, j, old_datas[j]));
                    assert(segment(block, len, j).2 <= pos);
                    assert(buf@.subrange(segment(block, len, j).1, segment(block, len, j).2)
                        =~= before.subrange(segment(block, len, j).1, segment(block, len, j).2));
                } else {
                    assert(datas[j] == data);
                    assert(buf@.subrange(pos as int, end as int) =~= padded(data@, end - pos));
                }
            }
            assert(buf@.subrange(end as int, len) =~= orig.subrange(end as int, len)) by {
                assert forall|i: int| end <= i < len implies before[i] == orig[i] by {
                    assert(before.subrange(pos as int, len)[i - pos] == orig.subrange(
                        pos as int,
                        len,
                    )[i - pos]);
                }
            }
        }
        k = k + 1;
        pos = end;
    }
    proof {
        lemma_track_count(len - fst, k as int);
        assert(segment_count(block, len) == k);
        assert forall|j: int| 0 <= j < k implies #[trigger] segment_filled(
            disk_read,
            buf@,
            block,
            j,
        ) by {
            assert(segment_holds(disk_read, buf@, block, j, datas[j]));
        }
    }
    Ok(())
}

/// The name of the floppy drive's filesystem, "floppy drive" padded with zeros.
pub open spec fn floppy_name() -> Seq<u8> {
    seq![102u8, 108, 111, 112, 112, 121, 32, 100, 114, 105, 118, 101, 0, 0, 0, 0]
}

/// The header a freshly formatted floppy drive gets: named "floppy drive", released on
/// `day` of `year`, of size zero and with the floppy feature.
pub open spec fn good_header_view(day: u16, year: u16) -> HeaderView {
    HeaderView {
        magic: MAGIC@,
        release: release_bits(day, year),
        features: 1,
        name: floppy_name(),
        size: 0,
        reserved: Seq::new(RESERVED_BYTES as nat, |i: int| 0u8),
    }
}

/// The header a freshly formatted floppy drive gets, see [`good_header_view`].
pub fn good_fs_header(day: u16, year: u16) -> (r: FilesystemHeader)
    requires
        year >= 2025,
    ensures
        r@ == good_header_view(day, year),
{
    let name: [u8; 16] = [102, 108, 111, 112, 112, 121, 32, 100, 114, 105, 118, 101, 0, 0, 0, 0];
    let r = FilesystemHeader::new(name, day, year, 0, FsFeatures::floppy());
    assert(name@ =~= floppy_name());
    r
}

/// The 512 bytes of a header read that returned `data`, missing bytes read as zero.
fn header_block(data: &Vec<u8>) -> (r: [u8; 512])
    ensures
        r@ == padded(data@, HEADER_SIZE as int),
{
    let mut out = [0u8; 512];
    let n = data.len();
    let mut i: usize = 0;
    while i < 512
        invariant
            0 <= i <= 512,
            n == data@.len(),
            forall|j: int| 0 <= j < i ==> out@[j] == padded(data@, HEADER_SIZE as int)[j],
        decreases 512 - i,
    {
        if i < n {
            out[i] = data[i];
        } else {
            out[i] = 0;
        }
        i = i + 1;
    }
    assert(out@ =~= padded(data@, HEADER_SIZE as int));
    out
}

/// An error created when trying to initialise the floppy filesystem.
#[derive(Debug)]
pub enum InitError<E> {
    /// The floppy driver failed.
    NoFloppyDriver,
    /// The floppy driver returned an error.
    FloppyError(E),
    /// The floppy drive was corrupt and wasn't reformatted.
    CorruptDrive,
    /// The inode table couldn't be read.
    TableError(ReadTblError<E>),
}

/// The last step of mounting: the inode table is read with `table_read`, taking the table
/// from `t0` to `t1` and the bitmap from `b0` to `b1`; on success the filesystem is marked
/// as mounted (`d1`), otherwise the error is returned and the flag kept (`d0`).
pub open spec fn table_stage<E, R: Fn(u64, usize) -> Result<Vec<u8>, E>>(
    table_read: &R,
    t0: Seq<INodeView>,
    b0: Seq<bool>,
    d0: bool,
    t1: Seq<INodeView>,
    b1: Seq<bool>,
    d1: bool,
    r: ExitCode<InitError<E>>,
) -> bool {
    exists|tr: Result<(u32, u32), ReadTblError<E>>|
        #[trigger] read_table_outcome(table_read, t0, b0, t1, b1, tr) && match tr {
            Ok(_) => r is Success && d1,
            Err(e) => r == ExitCode::Error(InitError::TableError(e)) && d1 == d0,
        }
}

/// Mounting once the header `hdr` is read: a header without the magic number means an
/// unformatted drive, which is reformatted with `good` through `write` only if `confirm`
/// agrees; then the inode table is read (see [`table_stage`]).
pub open spec fn mount_stage<
    E,
    R: Fn(u64, usize) -> Result<Vec<u8>, E>,
    W: Fn(u64, &[u8]) -> Result<(), E>,
    C: Fn() -> bool,
>(
    table_read: &R,
    write: &W,
    confirm: &C,
    hdr: HeaderView,
    good: HeaderView,
    t0: Seq<INodeView>,
    b0: Seq<bool>,
    d0: bool,
    t1: Seq<INodeView>,
    b1: Seq<bool>,
    d1: bool,
    r: ExitCode<InitError<E>>,
) -> bool {
    if hdr.magic == MAGIC@ {
        table_stage(table_read, t0, b0, d0, t1, b1, d1, r)
    } else {
        exists|yes: bool|
            #[trigger] confirm.ensures((), yes) && if !yes {
                &&& r == ExitCode::<InitError<E>>::Error(InitError::CorruptDrive)
                &&& t1 == t0 && b1 == b0 && d1 == d0
            } else {
                exists|fr: Result<(), E>|
                    #[trigger] reformat_outcome(write, good, fr) && match fr {
                        Err(e) => r == ExitCode::Error(InitError::FloppyError(e)) && t1 == t0
                            && b1 == b0 && d1 == d0,
                        Ok(_) => table_stage(table_read, t0, b0, d0, t1, b1, d1, r),
                    }
            }
    }
}

/// Initialises and mounts the floppy filesystem: reads its header with `header_read`,
/// reformats an unformatted drive with `write` if `confirm` agrees (using the header of
/// [`good_fs_header`] for `day` and `year`), reads the inode table with `table_read` into
/// `tbl` and `bmp`, and sets `floppyfs_init` once mounted.
pub fn init_floppyfs<E, H, R, W, C>(
    flags: &StartupFlags,
    floppyfs_init: &mut UnsafeFlag,
    day: u16,
    year: u16,
    tbl: &mut InodeTable,
    bmp: &mut BlockBitmap,
    header_read: &H,
    table_read: &R,
    write: &W,
    confirm: &C,
) -> (r: ExitCode<InitError<E>>) where
    H: Fn(u64, usize) -> Result<Vec<u8>, E>,
    R: Fn(u64, usize) -> Result<Vec<u8>, E>,
    W: Fn(u64, &[u8]) -> Result<(), E>,
    C: Fn() -> bool,

    requires
        year >= 2025,
        old(tbl)@.len() == INODES,
        header_read.requires((0u64, HEADER_SIZE)),
        table_read.requires((INODE_START, TABLE_BYTES)),
        forall|buf: &[u8]| #[trigger] write.requires((0u64, buf)),
        forall|buf: &[u8]| #[trigger] write.requires((INODE_START, buf)),
        confirm.requires(()),
    ensures
        !flags.floppy_init@ ==> {
            &&& r == ExitCode::<InitError<E>>::Error(InitError::NoFloppyDriver)
            &&& final(tbl)@ == old(tbl)@ && final(bmp)@ == old(bmp)@
            &&& final(floppyfs_init)@ == old(floppyfs_init)@
        },
        flags.floppy_init@ ==> exists|hres: Result<Vec<u8>, E>|
            #[trigger] header_read.ensures((0u64, HEADER_SIZE), hres) && match hres {
                Err(e) => r == ExitCode::Error(InitError::FloppyError(e)) && final(tbl)@ == old(
                    tbl,
                )@ && final(bmp)@ == old(bmp)@ && final(floppyfs_init)@ == old(floppyfs_init)@,
                Ok(data) => mount_stage(
                    table_read,
                    write,
                    confirm,
                    header_from_bytes(padded(data@, HEADER_SIZE as int)),
                    good_header_view(day, year),
                    old(tbl)@,
                    old(bmp)@,
                    old(floppyfs_init)@,
                    final(tbl)@,
                    final(bmp)@,
                    final(floppyfs_init)@,
                    r,
                ),
            },
{
    if !flags.floppy_init.load() {
        return ExitCode::Error(InitError::NoFloppyDriver);
    }
    let ghost t0 = tbl@;
    let ghost b0 = bmp@;
    let ghost d0 = floppyfs_init@;
    let hres = header_read(0, HEADER_SIZE);
    let data = match hres {
        Err(e) => {
            return ExitCode::Error(InitError::FloppyError(e));
        },
        Ok(data) => data,
    };
    let raw = header_block(&data);
    let fsheader = FilesystemHeader::from_raw(raw);
    let ghost hdr = header_from_bytes(padded(data@, HEADER_SIZE as int));
    assert(fsheader@ == hdr);
    if !fsheader.has_magic() {
        let yes = confirm();
        if !yes {
            proof {
                assert(confirm.ensures((), yes));
            }
            return ExitCode::Error(InitError::CorruptDrive);
        }
        let good = good_fs_header(day, year);
        let fr = reformat_drive(&good, write);
        assert(reformat_outcome(write, good@, fr));
        if let Err(e) = fr {
            return ExitCode::Error(InitError::FloppyError(e));
        }
    }
    let tr = read_table(tbl, bmp, table_read);
    assert(read_table_outcome(table_read, t0, b0, tbl@, bmp@, tr));
    match tr {
        Err(e) => ExitCode::Error(InitError::TableError(e)),
        Ok(_) => {
            floppyfs_init.store(true);
            ExitCode::Success
        },
    }
}

} // verus!
