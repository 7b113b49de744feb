//! Descriptor table pointers, register load errors and byte conversions.
use vstd::prelude::*;

use core::marker::PhantomData;

use crate::util::sync::InitError;

verus! {

/// The ASCII digits of `n` in base `base` (2 to 16, lower case letters), most significant
/// first, without leading zeros (zero is `0`).
pub open spec fn digits(n: nat, base: nat) -> Seq<u8>
    decreases n,
{
    let d = n % base;
    let c = (if d < 10 { 48 + d } else { 87 + d }) as u8;
    if base < 2 || n < base {
        seq![c]
    } else {
        proof {
            assert(n / base < n) by (nonlinear_arith)
                requires
                    base >= 2,
                    n >= base,
            ;
        }
        digits(n / base, base).push(c)
    }
}

/// The text of a descriptor: `size = <size in decimal> & offset = 0x<offset in hex>`.
pub open spec fn descriptor_text(size: u16, offset: u64) -> Seq<u8> {
    seq![115u8, 105, 122, 101, 32, 61, 32] + digits(size as nat, 10) + seq![
        32u8,
        38,
        32,
        111,
        102,
        102,
        115,
        101,
        116,
        32,
        61,
        32,
        48,
        120,
    ] + digits(offset as nat, 16)
}

/// Appends the digits of `n` in base `base` to `out`, see [`digits`].
fn push_digits(out: &mut Vec<u8>, n: u64, base: u64)
    requires
        2 <= base <= 16,
    ensures
        final(out)@ == old(out)@ + digits(n as nat, base as nat),
    decreases n,
{
    if n >= base {
        assert(n / base < n) by (nonlinear_arith)
            requires
                base >= 2,
                n >= base,
        ;
        push_digits(out, n / base, base);
    }
    let d = n % base;
    let c = if d < 10 {
        (48 + d) as u8
    } else {
        (87 + d) as u8
    };
    out.push(c);
    assert(out@ =~= old(out)@ + digits(n as nat, base as nat));
}

/// Appends the bytes of `bytes` to `out`.
fn push_all(out: &mut Vec<u8>, bytes: &[u8])
    ensures
        final(out)@ == old(out)@ + bytes@,
{
    let mut i: usize = 0;
    while i < bytes.len()
        invariant
            0 <= i <= bytes@.len(),
            out@ == old(out)@ + bytes@.subrange(0, i as int),
        decreases bytes@.len() - i,
    {
        out.push(bytes[i]);
        assert(bytes@.subrange(0, i + 1) =~= bytes@.subrange(0, i as int).push(bytes@[i as int]));
        i = i + 1;
    }
    assert(bytes@.subrange(0, bytes@.len() as int) =~= bytes@);
}

/// A pointer to a descriptor table (`T`), as loaded into the GDTR or IDTR registers.
pub struct TableDescriptor<T> {
    size: u16,
    offset: u64,
    _marker: PhantomData<T>,
}

impl<T> TableDescriptor<T> {
    /// The size of the table minus one.
    pub closed spec fn size(&self) -> u16 {
        self.size
    }

    /// The address of the table.
    pub closed spec fn offset(&self) -> u64 {
        self.offset
    }

    /// Creates a descriptor for a table of `table_bytes` bytes at address `offset`.
    /// The size kept is `table_bytes - 1`, truncated to 16 bits.
    pub fn new(table_bytes: usize, offset: u64) -> (r: Self)
        requires
            table_bytes >= 1,
        ensures
            r.size() == ((table_bytes - 1) % 65536) as u16,
            r.offset() == offset,
    {
        let size = ((table_bytes - 1) % 65536) as u16;
        TableDescriptor { size, offset, _marker: PhantomData }
    }

    /// Returns an invalid descriptor, with a size of zero and a null offset.
    pub fn invalid() -> (r: Self)
        ensures
            r.size() == 0,
            r.offset() == 0,
    {
        TableDescriptor { size: 0, offset: 0, _marker: PhantomData }
    }

    /// Returns an uninitialised descriptor, with a size of zero and a null offset.
    pub fn uninit() -> (r: Self)
        ensures
            r.size() == 0,
            r.offset() == 0,
    {
        TableDescriptor { size: 0, offset: 0, _marker: PhantomData }
    }

    /// The descriptor as text, in ASCII: `size = <size> & offset = 0x<offset in hex>`.
    pub fn text(&self) -> (r: Vec<u8>)
        ensures
            r@ == descriptor_text(self.size(), self.offset()),
    {
        let mut out: Vec<u8> = Vec::new();
        let head: [u8; 7] = [115, 105, 122, 101, 32, 61, 32];
        let mid: [u8; 14] = [32, 38, 32, 111, 102, 102, 115, 101, 116, 32, 61, 32, 48, 120];
        push_all(&mut out, &head);
        push_digits(&mut out, self.size as u64, 10);
        push_all(&mut out, &mid);
        push_digits(&mut out, self.offset, 16);
        assert(head@ =~= seq![115u8, 105, 122, 101, 32, 61, 32]);
        assert(mid@ =~= seq![32u8, 38, 32, 111, 102, 102, 115, 101, 116, 32, 61, 32, 48, 120]);
        assert(out@ =~= descriptor_text(self.size(), self.offset()));
        out
    }

    /// Creates a descriptor from the raw values stored in a register.
    pub fn from_raw(size: u16, offset: u64) -> (r: Self)
        ensures
            r.size() == size,
            r.offset() == offset,
    {
        TableDescriptor { size, offset, _marker: PhantomData }
    }

    /// Returns the size field.
    pub fn get_size(&self) -> (r: u16)
        ensures
            r == self.size(),
    {
        self.size
    }

    /// Returns the offset field.
    pub fn get_offset(&self) -> (r: u64)
        ensures
            r == self.offset(),
    {
        self.offset
    }
}

impl<T> PartialEq for TableDescriptor<T> {
    /// Two descriptors are equal if their sizes and offsets are.
    fn eq(&self, other: &Self) -> (r: bool) {
        self.size == other.size && self.offset == other.offset
    }
}

impl<T> vstd::std_specs::cmp::PartialEqSpecImpl for TableDescriptor<T> {
    open spec fn obeys_eq_spec() -> bool {
        true
    }

    open spec fn eq_spec(&self, other: &TableDescriptor<T>) -> bool {
        self.size() == other.size() && self.offset() == other.offset()
    }
}

/// A wrapper type for checking if a register (`T`) loaded correctly.
pub enum LoadRegisterError<T> {
    /// The table couldn't be initialised.
    Load(InitError<T>),
    /// The stored register didn't match the loaded one.
    Store(&'static str),
    /// Some other error.
    Other(&'static str),
}

impl<T> From<InitError<T>> for LoadRegisterError<T> {
    fn from(err: InitError<T>) -> (r: Self) {
        LoadRegisterError::Load(err)
    }
}

impl<T> vstd::std_specs::convert::FromSpecImpl<InitError<T>> for LoadRegisterError<T> {
    open spec fn obeys_from_spec() -> bool {
        true
    }

    open spec fn from_spec(v: InitError<T>) -> LoadRegisterError<T> {
        LoadRegisterError::Load(v)
    }
}

/// Enables converting a value into the bytes it is stored as.
pub trait AsBytes {
    /// The bytes the value is stored as.
    spec fn bytes_spec(&self) -> Seq<u8>;

    /// Converts `self` into an array of bytes.
    fn as_bytes(&self) -> (r: Vec<u8>)
        ensures
            r@ == self.bytes_spec(),
    ;
}

} // verus!
