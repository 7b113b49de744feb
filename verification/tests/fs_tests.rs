use sunflower::fs::header::FilesystemHeader;
use sunflower::fs::header::FsFeatures;
use sunflower::fs::init::{load_table, read_table, reformat_drive, ReadTblError, TABLE_BYTES};
use sunflower::fs::release::FsRelease;
use sunflower::fs::table::{
    alloc_bmp, alloc_inode, alloc_next_bmp, write_inode_block, AllocBmpError, AllocInodeError,
    BlockBitmap, InodeTable, UpdateInodeError,
};
use sunflower::fs::{BlockPtr, DualBlockPtr, FileMode, INode, InodePtr, INODES, MAGIC};
use sunflower::util::send::AsBytes;

/// Tests that filesystem releases are correctly encoded and decoded.
#[test]
fn fs_release_encoding() {
    for year in 0..2u16.pow(6) {
        for day in 0..2u16.pow(10) {
            let (yr, day) = FsRelease::new(day, FsRelease::YEAR_START + year).year_day();
            assert_eq!(yr, year);
            assert_eq!(day, day);
        }
    }
}

/// Performs some tests on [`BlockPtr`] nullability.
#[test]
fn block_ptr_nullability() {
    assert!(BlockPtr::null().is_null());
    assert!(!BlockPtr::null().is_valid());
    assert!(BlockPtr::new(0).is_null());
    assert!(BlockPtr::new(2312).is_valid());
    assert!(BlockPtr::new(BlockPtr::MAX_VAL).is_valid());
    assert!(BlockPtr::new(BlockPtr::MAX_VAL + 6).is_valid());
}

/// Tests the equality comparisons of [`BlockPtr`].
#[test]
fn block_ptr_eq() {
    assert_eq!(BlockPtr::new(0), BlockPtr::null());
    assert_ne!(BlockPtr::new(1), BlockPtr::null());
    assert_eq!(BlockPtr::new(9), BlockPtr::new(9));
    assert_eq!(BlockPtr::new(BlockPtr::MAX_VAL), BlockPtr::new(BlockPtr::MAX_VAL + 1));
    assert_eq!(BlockPtr::new(BlockPtr::MAX_VAL), BlockPtr::new(BlockPtr::MAX_VAL + 257));
    assert_ne!(BlockPtr::new(BlockPtr::MAX_VAL), BlockPtr::new(BlockPtr::MAX_VAL - 1));
}

/// Tests that dual block pointers are correctly encoded and decoded.
#[test]
fn dual_block_ptr_encoding() {
    for fst in 0..2u16.pow(12) {
        for snd in 0..2u16.pow(12) {
            let (fst, snd) = (BlockPtr::new(fst), BlockPtr::new(snd));
            let decoded = DualBlockPtr::encode([&fst, &snd]).decode();
            assert_eq!(fst, decoded[0]);
            assert_eq!(snd, decoded[1])
        }
    }
}

/// Tests that [`alloc_bmp`] prevents allocating the same block twice.
#[test]
fn no_double_bmp_alloc() {
    let mut bmp = BlockBitmap::new();
    assert_eq!(alloc_bmp(&BlockPtr::null(), &mut bmp), Err(AllocBmpError::NullPtr));
    for ptr in 1..BlockPtr::MAX_VAL {
        let blk = BlockPtr::new(ptr);
        assert_eq!(alloc_bmp(&blk, &mut bmp), Ok(()));
        assert_eq!(alloc_bmp(&blk, &mut bmp), Err(AllocBmpError::AlreadyInUse(blk)));
    }
}

/// Tests that [`alloc_bmp`] sees writes to the block bitmap.
#[test]
fn bmp_alloc_persistence() {
    let mut bmp = BlockBitmap::new();
    bmp.set_word(0, 0b10); // alloc block 1
    let blk = BlockPtr::new(1);
    assert_eq!(alloc_bmp(&blk, &mut bmp), Err(AllocBmpError::AlreadyInUse(blk)));
    assert_eq!(alloc_bmp(&BlockPtr::new(2), &mut bmp), Ok(()));
}

/// Tests that [`alloc_inode`] works ok.
#[test]
fn alloc_inode_works() {
    let mut tbl = InodeTable::new();
    let nod = INode::new(FileMode::directory(), 0, InodePtr::new(0x42));
    let nod_bytes = nod.as_bytes();
    let write = |ptr: u64, buf: &[u8]| -> Result<(), ()> {
        assert_eq!(ptr, 1); // writing to the first inode block
        assert_eq!(&buf[..128], &nod_bytes[..]); // nod wrote ok
        assert_eq!(&buf[128..], [0; 128 * 3]); // the rest of the buf is uninit nods
        Ok(())
    };

    alloc_inode(&nod, &mut tbl, &write).unwrap();
    assert_eq!(tbl.get(0), nod);
}

/// Tests that [`alloc_next_bmp`] works correctly.
#[test]
fn alloc_next_bmp_works() {
    let mut bmp = BlockBitmap::new();
    for ptr in 1..BlockPtr::MAX_VAL {
        assert_eq!(alloc_next_bmp(&mut bmp), BlockPtr::new(ptr));
    }
    assert!(alloc_next_bmp(&mut bmp).is_null())
}

/// A full inode table reports that it's out of inodes, leaving the table as it was.
#[test]
fn alloc_inode_out_of_inodes() {
    let mut tbl = InodeTable::new();
    let nod = INode::new(FileMode::empty(), 7, InodePtr::null());
    let ok = |_: u64, _: &[u8]| -> Result<(), ()> { Ok(()) };
    for i in 0..INODES {
        let ptr = alloc_inode(&nod, &mut tbl, &ok).unwrap();
        assert_eq!(ptr.get(), Some(i as u16 + 1));
        assert_eq!(ptr.get_table_idx(), Some(i as u16));
    }
    assert!(matches!(alloc_inode(&nod, &mut tbl, &ok), Err(AllocInodeError::OutOfInodes)));
}

/// The block written for an inode is the block holding it: inode 5 is in block 2.
#[test]
fn write_inode_block_writes_the_right_block() {
    let mut tbl = InodeTable::new();
    let nod = INode::new(FileMode::directory(), 3, InodePtr::null());
    let ok = |_: u64, _: &[u8]| -> Result<(), ()> { Ok(()) };
    for _ in 0..6 {
        alloc_inode(&nod, &mut tbl, &ok).unwrap();
    }
    let check = |block: u64, buf: &[u8]| -> Result<(), u8> {
        assert_eq!(block, 2);
        assert_eq!(buf.len(), 512);
        assert_eq!(&buf[..128], &nod.as_bytes()[..]);
        assert_eq!(&buf[256..], [0; 256]);
        Err(9)
    };
    let res = write_inode_block(&InodePtr::new(6), &tbl, &check);
    assert!(matches!(res, Err(UpdateInodeError::WriteError(9))));
    let res = write_inode_block(&InodePtr::null(), &tbl, &check);
    assert!(matches!(res, Err(UpdateInodeError::NullPtr)));
}

/// A failed write after allocating still reports the write's error.
#[test]
fn alloc_inode_write_error() {
    let mut tbl = InodeTable::new();
    let nod = INode::new(FileMode::empty(), 1, InodePtr::null());
    let fail = |_: u64, _: &[u8]| -> Result<(), &'static str> { Err("disk gone") };
    let res = alloc_inode(&nod, &mut tbl, &fail);
    assert!(matches!(res, Err(AllocInodeError::UpdateInode(UpdateInodeError::WriteError("disk gone")))));
    assert_eq!(tbl.get(0), nod);
}

/// Inode bytes round trip and have the documented layout.
#[test]
fn inode_bytes_layout() {
    let mut nod = INode::new(FileMode::from_bits_retain(0x1234), 0x5678, InodePtr::new(0x9ABC));
    let bytes = nod.as_bytes();
    assert_eq!(bytes.len(), 128);
    assert_eq!(&bytes[..5], &[0x34, 0x12, 1, 0x78, 0x56]);
    assert_eq!(&bytes[77..79], &[0xBC, 0x9A]);
    let back = INode::from_raw(&bytes);
    assert_eq!(back, nod);
    assert_eq!(back.mode(), FileMode::from_bits_retain(0x1234));
    assert_eq!(back.parent(), InodePtr::new(0x9ABC));
    assert!(!back.is_available());
    nod = INode::zeroed();
    assert!(nod.is_available());
    assert_eq!(nod.as_bytes(), vec![0u8; 128]);
}

/// Decoding a dual pointer splits its three bytes into two 12 bit pointers.
#[test]
fn dual_block_ptr_exact_values() {
    let d = DualBlockPtr::encode([&BlockPtr::new(0xABC), &BlockPtr::new(0x123)]);
    let [a, b] = d.decode();
    assert_eq!(a.get(), Some(0xABC));
    assert_eq!(b.get(), Some(0x123));
    // the largest twelve bit pointer survives the trip
    let [m, n] = DualBlockPtr::encode([&BlockPtr::new(4095), &BlockPtr::null()]).decode();
    assert_eq!(m, BlockPtr::new(4095));
    assert!(n.is_null());
    // MAX_VAL's thirteenth bit doesn't fit, so it decodes as null
    let [m, _] = DualBlockPtr::encode([&BlockPtr::new(BlockPtr::MAX_VAL), &BlockPtr::null()]).decode();
    assert!(m.is_null());
    assert_eq!(DualBlockPtr::empty_arr()[0].decode(), [BlockPtr::null(), BlockPtr::null()]);
}

/// Block pointer values are truncated to MAX_VAL and nullable is zero for null.
#[test]
fn block_ptr_values() {
    assert_eq!(BlockPtr::new(5000).get(), Some(4096));
    assert_eq!(BlockPtr::null().get_nullable(), 0);
    assert_eq!(BlockPtr::new(77).get_nullable(), 77);
    assert_eq!(InodePtr::new(0), InodePtr::null());
    assert!(InodePtr::new(3).is_valid());
    assert_eq!(InodePtr::new(1).get_table_idx(), Some(0));
    assert_eq!(InodePtr::null().get_table_idx(), None);
}

/// Releases order by year then day.
#[test]
fn fs_release_order() {
    let a = FsRelease::new(300, 2025);
    let b = FsRelease::new(2, 2026);
    assert!(a < b);
    assert!(b > a);
    assert!(FsRelease::new(5, 2030) == FsRelease::new(5, 2030));
    assert!(FsRelease::new(5, 2030) > FsRelease::new(4, 2030));
    assert_eq!(FsRelease::new(366, 2027).year_day(), (2, 366));
    assert_eq!(FsRelease::new(0, 2025).bits(), 0);
}

/// Headers round trip through their bytes and carry the magic number.
#[test]
fn header_round_trip() {
    let name = *b"floppy drive\0\0\0\0";
    let h = FilesystemHeader::new(name, 326, 2025, 2880, FsFeatures::floppy());
    assert_eq!(h.magic, MAGIC);
    let bytes = h.as_bytes();
    assert_eq!(bytes.len(), 512);
    assert_eq!(&bytes[..6], &MAGIC);
    let arr: [u8; 512] = bytes.clone().try_into().unwrap();
    let back = FilesystemHeader::from_raw(arr);
    assert_eq!(back.magic, MAGIC);
    assert_eq!(back.name, name);
    assert_eq!(back.size, 2880);
    assert_eq!(back.release().year_day(), (0, 326));
    assert!(back.features().contains(FsFeatures::floppy()));
    assert_eq!(back.as_bytes(), bytes);
}

/// Reformatting writes the header to block 0 then a zeroed table to block 1.
#[test]
fn reformat_writes_header_and_table() {
    let h = FilesystemHeader::new([0; 16], 1, 2025, 0, FsFeatures::empty());
    let calls = std::cell::RefCell::new(Vec::new());
    let write = |block: u64, buf: &[u8]| -> Result<(), ()> {
        calls.borrow_mut().push((block, buf.len(), buf.iter().all(|b| *b == 0)));
        Ok(())
    };
    reformat_drive(&h, &write).unwrap();
    assert_eq!(*calls.borrow(), vec![(0, 512, false), (1, TABLE_BYTES, true)]);
    let fail = |_: u64, _: &[u8]| -> Result<(), u8> { Err(3) };
    assert_eq!(reformat_drive(&h, &fail), Err(3));
}

/// Reading a table keeps inodes at their index and marks their blocks as used.
#[test]
fn read_table_marks_blocks() {
    let mut src = InodeTable::new();
    let ok = |_: u64, _: &[u8]| -> Result<(), ()> { Ok(()) };
    let nod = INode::new(FileMode::empty(), 0, InodePtr::null());
    alloc_inode(&nod, &mut src, &ok).unwrap();
    let mut bytes = Vec::new();
    for i in 0..INODES {
        bytes.extend(src.get(i).as_bytes());
    }
    // give inode 0 the blocks 40 and 41
    let mut raw = src.get(0).as_bytes();
    raw[5] = (40u16 >> 4) as u8;
    raw[6] = (((40u16 & 0xF) << 4) | (41u16 >> 8)) as u8;
    raw[7] = 41u8;
    bytes[..128].copy_from_slice(&raw);
    let mut tbl = InodeTable::new();
    let mut bmp = BlockBitmap::new();
    assert_eq!(load_table::<()>(&mut tbl, &mut bmp, &bytes).unwrap(), (1, 2));
    assert!(bmp.is_used(40) && bmp.is_used(41) && !bmp.is_used(42));
    assert!(!tbl.get(0).is_available());
    // reading it again finds block 40 already used
    let res = load_table::<()>(&mut tbl, &mut bmp, &bytes);
    assert!(matches!(res, Err(ReadTblError::AllocBmp(AllocBmpError::AlreadyInUse(b))) if b == BlockPtr::new(40)));
    // a reader which fails
    let mut tbl2 = InodeTable::new();
    let mut bmp2 = BlockBitmap::new();
    let fail = |_: u64, _: usize| -> Result<Vec<u8>, u8> { Err(1) };
    assert!(matches!(read_table(&mut tbl2, &mut bmp2, &fail), Err(ReadTblError::ReadError(1))));
    let short = |b: u64, n: usize| -> Result<Vec<u8>, u8> {
        assert_eq!((b, n), (1, TABLE_BYTES));
        Ok(vec![])
    };
    assert_eq!(read_table(&mut tbl2, &mut bmp2, &short).unwrap(), (0, 0));
}

/// The bitmap's last block can be allocated once.
#[test]
fn last_bitmap_block_can_be_allocated() {
    let mut bmp = BlockBitmap::new();
    let blk = BlockPtr::new(4095);
    assert_eq!(alloc_bmp(&blk, &mut bmp), Ok(()));
    assert!(bmp.is_used(4095));
    assert_eq!(alloc_bmp(&blk, &mut bmp), Err(AllocBmpError::AlreadyInUse(blk)));
}
