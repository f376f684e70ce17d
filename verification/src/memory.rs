//! Byte-addressable storage with bounds-checked, big-endian access at the three
//! operand widths, and an address-stepping cursor for instruction-word fetch.

use vstd::prelude::*;

verus! {

/// Capacity, in bytes, of the address space a freshly built machine owns.
pub const MEMORY_CAPACITY: usize = 0x50_0000;

/// The faults the core can surface: every failure of a memory access, a fetch,
/// a decode or an execute step is one of these, never a silent wraparound.
#[derive(Clone, Copy, Debug, PartialEq, Eq, Structural)]
pub enum Fault {
    /// A read or write whose span exceeds the capacity of the address space.
    OutOfBounds,
    /// An instruction fetch from an odd address.
    MisalignedFetch,
    /// A reserved or unsupported bit pattern reached decode or execute.
    IllegalOpcode,
    /// A privileged instruction was executed outside supervisor state.
    PrivilegeViolation,
}

/// High byte of a 16-bit word: the byte stored at the lower address.
pub open spec fn byte_hi(w: u16) -> u8 {
    (w / 0x100) as u8
}

/// Low byte of a 16-bit word: the byte stored at the higher address.
pub open spec fn byte_lo(w: u16) -> u8 {
    (w % 0x100) as u8
}

/// The word whose big-endian bytes are `hi` then `lo`.
pub open spec fn word_be(hi: u8, lo: u8) -> u16 {
    (hi as int * 0x100 + lo as int) as u16
}

/// The long word whose big-endian bytes are `b0 b1 b2 b3`, `b0` lowest-addressed.
pub open spec fn long_be(b0: u8, b1: u8, b2: u8, b3: u8) -> u32 {
    (b0 as int * 0x100_0000 + b1 as int * 0x1_0000 + b2 as int * 0x100 + b3 as int) as u32
}

/// Byte `i` (0 = most significant) of a 32-bit long word.
pub open spec fn long_byte(l: u32, i: int) -> u8 {
    if i == 0 {
        (l / 0x100_0000) as u8
    } else if i == 1 {
        ((l / 0x1_0000) % 0x100) as u8
    } else if i == 2 {
        ((l / 0x100) % 0x100) as u8
    } else {
        (l % 0x100) as u8
    }
}

/// What a byte read returns: the byte at `a`, or nothing when `a` is past the end.
pub open spec fn spec_read_byte(m: Seq<u8>, a: u32) -> Option<u8> {
    if (a as int) < m.len() {
        Some(m[a as int])
    } else {
        None
    }
}

/// What a word read returns: the big-endian word at `[a, a+2)`.
pub open spec fn spec_read_word(m: Seq<u8>, a: u32) -> Option<u16> {
    if a as int + 2 <= m.len() {
        Some(word_be(m[a as int], m[a as int + 1]))
    } else {
        None
    }
}

/// What a long read returns: the big-endian long word at `[a, a+4)`.
pub open spec fn spec_read_long(m: Seq<u8>, a: u32) -> Option<u32> {
    if a as int + 4 <= m.len() {
        Some(long_be(m[a as int], m[a as int + 1], m[a as int + 2], m[a as int + 3]))
    } else {
        None
    }
}

/// The store after a successful byte write at `a`.
pub open spec fn spec_write_byte(m: Seq<u8>, a: u32, d: u8) -> Seq<u8> {
    m.update(a as int, d)
}

/// The store after a successful word write at `a`: most significant byte first.
pub open spec fn spec_write_word(m: Seq<u8>, a: u32, d: u16) -> Seq<u8> {
    m.update(a as int, byte_hi(d)).update(a as int + 1, byte_lo(d))
}

/// The store after a successful long write at `a`: most significant byte first.
pub open spec fn spec_write_long(m: Seq<u8>, a: u32, d: u32) -> Seq<u8> {
    m.update(a as int, long_byte(d, 0)).update(a as int + 1, long_byte(d, 1)).update(
        a as int + 2,
        long_byte(d, 2),
    ).update(a as int + 3, long_byte(d, 3))
}

/// Bounds-checked storage at byte granularity. `contents` is the byte-level
/// view every contract speaks of; an access whose span leaves it fails cleanly,
/// mutating nothing. Multi-byte accesses are big-endian.
pub trait Memory: Sized {
    /// The bytes the store holds, in address order.
    spec fn contents(&self) -> Seq<u8>;

    fn read_at_address_byte(&self, address: u32) -> (r: Option<u8>)
        ensures
            r == spec_read_byte(self.contents(), address),
    ;

    fn read_at_address_word(&self, address: u32) -> (r: Option<u16>)
        ensures
            r == spec_read_word(self.contents(), address),
    ;

    fn read_at_address_long(&self, address: u32) -> (r: Option<u32>)
        ensures
            r == spec_read_long(self.contents(), address),
    ;

    fn write_at_address_byte(&mut self, address: u32, data: u8) -> (r: Result<(), Fault>)
        ensures
            r is Ok <==> address as int + 1 <= old(self).contents().len(),
            r is Ok ==> final(self).contents() == spec_write_byte(
                old(self).contents(),
                address,
                data,
            ),
            r is Err ==> final(self).contents() == old(self).contents() && r == Err::<(), Fault>(
                Fault::OutOfBounds,
            ),
    ;

    fn write_at_address_word(&mut self, address: u32, data: u16) -> (r: Result<(), Fault>)
        ensures
            r is Ok <==> address as int + 2 <= old(self).contents().len(),
            r is Ok ==> final(self).contents() == spec_write_word(
                old(self).contents(),
                address,
                data,
            ),
            r is Err ==> final(self).contents() == old(self).contents() && r == Err::<(), Fault>(
                Fault::OutOfBounds,
            ),
    ;

    fn write_at_address_long(&mut self, address: u32, data: u32) -> (r: Result<(), Fault>)
        ensures
            r is Ok <==> address as int + 4 <= old(self).contents().len(),
            r is Ok ==> final(self).contents() == spec_write_long(
                old(self).contents(),
                address,
                data,
            ),
            r is Err ==> final(self).contents() == old(self).contents() && r == Err::<(), Fault>(
                Fault::OutOfBounds,
            ),
    ;

    /// An instruction-word cursor starting at `address`.
    fn iter(&self, address: u32) -> (it: MemoryIter)
        ensures
            it.next_address == address,
    ;
}

/// Byte-granular backing: each storage cell is one byte.
pub struct ByteMemory {
    data: Vec<u8>,
}

impl ByteMemory {
    /// A zero-filled store of `size` bytes.
    pub fn new(size: usize) -> (m: ByteMemory)
        ensures
            m.contents() == Seq::new(size as nat, |i: int| 0u8),
    {
        let mut data: Vec<u8> = Vec::new();
        data.resize(size, 0u8);
        assert(data@ =~= Seq::new(size as nat, |i: int| 0u8));
        ByteMemory { data }
    }

    /// A store preloaded with a raw memory image, as the loader layer hands one in.
    pub fn from_image(image: Vec<u8>) -> (m: ByteMemory)
        ensures
            m.contents() == image@,
    {
        ByteMemory { data: image }
    }
}

impl Memory for ByteMemory {
    closed spec fn contents(&self) -> Seq<u8> {
        self.data@
    }

    fn read_at_address_byte(&self, address: u32) -> (r: Option<u8>) {
        let a = address as usize;
        if a < self.data.len() {
            Some(self.data[a])
        } else {
            None
        }
    }

    fn read_at_address_word(&self, address: u32) -> (r: Option<u16>) {
        let a = address as usize;
        if a < self.data.len() && self.data.len() - a >= 2 {
            let hi = self.data[a];
            let lo = self.data[a + 1];
            Some((hi as u16) * 0x100 + (lo as u16))
        } else {
            None
        }
    }

    fn read_at_address_long(&self, address: u32) -> (r: Option<u32>) {
        let a = address as usize;
        if a < self.data.len() && self.data.len() - a >= 4 {
            let b0 = self.data[a];
            let b1 = self.data[a + 1];
            let b2 = self.data[a + 2];
            let b3 = self.data[a + 3];
            Some(
                (b0 as u32) * 0x100_0000 + (b1 as u32) * 0x1_0000 + (b2 as u32) * 0x100 + (
                b3 as u32),
            )
        } else {
            None
        }
    }

    fn write_at_address_byte(&mut self, address: u32, data: u8) -> (r: Result<(), Fault>) {
        let a = address as usize;
        if a < self.data.len() {
            self.data.set(a, data);
            Ok(())
        } else {
            Err(Fault::OutOfBounds)
        }
    }

    fn write_at_address_word(&mut self, address: u32, data: u16) -> (r: Result<(), Fault>) {
        let a = address as usize;
        if a < self.data.len() && self.data.len() - a >= 2 {
            self.data.set(a, (data / 0x100) as u8);
            self.data.set(a + 1, (data % 0x100) as u8);
            Ok(())
        } else {
            Err(Fault::OutOfBounds)
        }
    }

    fn write_at_address_long(&mut self, address: u32, data: u32) -> (r: Result<(), Fault>) {
        let a = address as usize;
        if a < self.data.len() && self.data.len() - a >= 4 {
            self.data.set(a, (data / 0x100_0000) as u8);
            self.data.set(a + 1, ((data / 0x1_0000) % 0x100) as u8);
            self.data.set(a + 2, ((data / 0x100) % 0x100) as u8);
            self.data.set(a + 3, (data % 0x100) as u8);
            Ok(())
        } else {
            Err(Fault::OutOfBounds)
        }
    }

    fn iter(&self, address: u32) -> (it: MemoryIter) {
        MemoryIter { next_address: address }
    }
}

/// What one step of the instruction-word cursor yields at address `a`: the word
/// at `[a, a+2)`, a misalignment fault when `a` is odd, or an out-of-bounds
/// fault when the span leaves the store (or `a + 2` cannot be represented,
/// so that no further cursor position would exist).
pub open spec fn spec_fetch_word(m: Seq<u8>, a: u32) -> Result<u16, Fault> {
    if a % 2 != 0 {
        Err(Fault::MisalignedFetch)
    } else if a as int + 2 <= m.len() && a as int + 2 <= u32::MAX as int {
        Ok(word_be(m[a as int], m[a as int + 1]))
    } else {
        Err(Fault::OutOfBounds)
    }
}

/// The address-stepping sequence producer for instruction fetch: yields the
/// 16-bit word at its current address and advances by two bytes, refusing to
/// start or continue from an odd address.
pub struct MemoryIter {
    pub next_address: u32,
}

impl MemoryIter {
    /// A cursor that will fetch first from `address`.
    pub fn new(address: u32) -> (it: MemoryIter)
        ensures
            it.next_address == address,
    {
        MemoryIter { next_address: address }
    }

    /// Yield the word at the cursor and advance by two; on any fault the cursor
    /// does not move, so the failure is repeatable rather than misaligning.
    pub fn next<M: Memory>(&mut self, mem: &M) -> (r: Result<u16, Fault>)
        ensures
            r == spec_fetch_word(mem.contents(), old(self).next_address),
            final(self).next_address == if r is Ok {
                (old(self).next_address + 2) as u32
            } else {
                old(self).next_address
            },
    {
        let a = self.next_address;
        if a % 2 != 0 {
            Err(Fault::MisalignedFetch)
        } else if a <= u32::MAX - 2 {
            match mem.read_at_address_word(a) {
                Some(w) => {
                    self.next_address = a + 2;
                    Ok(w)
                },
                None => Err(Fault::OutOfBounds),
            }
        } else {
            Err(Fault::OutOfBounds)
        }
    }
}

/// Round trip at byte width: a successful write is read back unchanged.
pub proof fn lemma_write_read_byte(m: Seq<u8>, a: u32, d: u8)
    requires
        a as int + 1 <= m.len(),
    ensures
        spec_read_byte(spec_write_byte(m, a, d), a) == Some(d),
{
}

/// Round trip at word width: a successful write is read back unchanged.
pub proof fn lemma_write_read_word(m: Seq<u8>, a: u32, d: u16)
    requires
        a as int + 2 <= m.len(),
    ensures
        spec_read_word(spec_write_word(m, a, d), a) == Some(d),
{
    assert(word_be(byte_hi(d), byte_lo(d)) == d) by {
        assert(d / 0x100 < 0x100);
        assert((d / 0x100) as int * 0x100 + (d % 0x100) as int == d as int);
    }
}

/// Round trip at long width: a successful write is read back unchanged.
pub proof fn lemma_write_read_long(m: Seq<u8>, a: u32, d: u32)
    requires
        a as int + 4 <= m.len(),
    ensures
        spec_read_long(spec_write_long(m, a, d), a) == Some(d),
{
    assert(long_be(long_byte(d, 0), long_byte(d, 1), long_byte(d, 2), long_byte(d, 3)) == d) by {
        assert(d / 0x100_0000 < 0x100);
        assert((d / 0x100_0000) as int * 0x100_0000 + ((d / 0x1_0000) % 0x100) as int * 0x1_0000 + (
        (d / 0x100) % 0x100) as int * 0x100 + (d % 0x100) as int == d as int);
    }
}

/// A failed access touches nothing: outside the store, reads return nothing and
/// writes refuse, and the write contracts already pin the store unchanged.
pub proof fn lemma_out_of_bounds_rejected(m: Seq<u8>, a: u32)
    requires
        a as int + 1 > m.len(),
    ensures
        spec_read_byte(m, a) is None,
        spec_read_word(m, a) is None,
        spec_read_long(m, a) is None,
{
}

/// Words and longs are stored big-endian: the most significant byte lands at
/// the lower address.
pub proof fn lemma_big_endian_layout(m: Seq<u8>, a: u32, w: u16, l: u32)
    requires
        a as int + 4 <= m.len(),
    ensures
        spec_write_word(m, a, w)[a as int] == byte_hi(w),
        spec_write_word(m, a, w)[a as int + 1] == byte_lo(w),
        spec_write_long(m, a, l)[a as int] == long_byte(l, 0),
        spec_write_long(m, a, l)[a as int + 3] == long_byte(l, 3),
{
}

/// A write leaves every byte outside its span as it was.
pub proof fn lemma_write_word_frames(m: Seq<u8>, a: u32, d: u16, i: int)
    requires
        a as int + 2 <= m.len(),
        0 <= i < m.len(),
        i != a as int,
        i != a as int + 1,
    ensures
        spec_write_word(m, a, d)[i] == m[i],
{
}

/// Word-granular backing: each storage cell is one 16-bit word, split and
/// combined for byte-level access. Its byte-level view interleaves each cell's
/// high byte (at the even address) and low byte, so both backings answer every
/// read identically for identical logical content.
pub struct WordMemory {
    data: Vec<u16>,
}

impl WordMemory {
    /// A zero-filled store of `cells` 16-bit cells.
    pub fn new(cells: usize) -> (m: WordMemory)
        ensures
            m.contents() == Seq::new(2 * cells as nat, |i: int| 0u8),
    {
        let mut data: Vec<u16> = Vec::new();
        data.resize(cells, 0u16);
        let m = WordMemory { data };
        proof {
            assert(m.contents() =~= Seq::new(2 * cells as nat, |i: int| 0u8));
        }
        m
    }

    /// A store preloaded from 16-bit cells, most significant byte of each cell
    /// at the lower byte address.
    pub fn from_cells(cells: Vec<u16>) -> (m: WordMemory)
        ensures
            m.contents().len() == 2 * cells@.len(),
            forall|i: int|
                0 <= i < 2 * cells@.len() ==> m.contents()[i] == (if i % 2 == 0 {
                    byte_hi(cells@[i / 2])
                } else {
                    byte_lo(cells@[i / 2])
                }),
    {
        WordMemory { data: cells }
    }

    /// Whether byte address `a` lies inside the store: exactly when its cell
    /// index does.
    fn in_range(&self, a: u64) -> (r: bool)
        ensures
            r <==> (a as int) < self.contents().len(),
    {
        proof {
            vstd::arithmetic::div_mod::lemma_fundamental_div_mod(a as int, 2);
        }
        (a / 2) < self.data.len() as u64
    }

    /// The byte at byte address `i`: the high or low half of its cell.
    fn byte_at(&self, i: u64) -> (b: u8)
        requires
            (i as int) < self.contents().len(),
        ensures
            b == self.contents()[i as int],
    {
        let len = self.data.len();
        proof {
            vstd::arithmetic::div_mod::lemma_fundamental_div_mod(i as int, 2);
            assert(i as int / 2 < len as int);
        }
        let k = (i / 2) as usize;
        let cell = self.data[k];
        if i % 2 == 0 {
            (cell / 0x100) as u8
        } else {
            (cell % 0x100) as u8
        }
    }

    /// Store a byte at byte address `i`, replacing the high or low half of its
    /// cell and leaving the other half untouched.
    fn set_byte_at(&mut self, i: u64, d: u8)
        requires
            (i as int) < old(self).contents().len(),
        ensures
            final(self).contents() == old(self).contents().update(i as int, d),
    {
        let len = self.data.len();
        proof {
            vstd::arithmetic::div_mod::lemma_fundamental_div_mod(i as int, 2);
            assert(i as int / 2 < len as int);
        }
        let k = (i / 2) as usize;
        let cell = self.data[k];
        let updated: u16 = if i % 2 == 0 {
            (d as u16) * 0x100 + cell % 0x100
        } else {
            cell / 0x100 * 0x100 + (d as u16)
        };
        self.data.set(k, updated);
        proof {
            assert((updated as int) / 0x100 == if i % 2 == 0 {
                d as int
            } else {
                cell as int / 0x100
            });
            assert((updated as int) % 0x100 == if i % 2 == 0 {
                cell as int % 0x100
            } else {
                d as int
            });
            assert forall|j: int| 0 <= j < self.contents().len() implies self.contents()[j] == old(
                self,
            ).contents().update(i as int, d)[j] by {
                vstd::arithmetic::div_mod::lemma_fundamental_div_mod(j, 2);
                vstd::arithmetic::div_mod::lemma_fundamental_div_mod(i as int, 2);
            }
            assert(self.contents() =~= old(self).contents().update(i as int, d));
        }
    }
}

impl Memory for WordMemory {
    closed spec fn contents(&self) -> Seq<u8> {
        Seq::new(
            2 * self.data@.len(),
            |i: int|
                if i % 2 == 0 {
                    byte_hi(self.data@[i / 2])
                } else {
                    byte_lo(self.data@[i / 2])
                },
        )
    }

    fn read_at_address_byte(&self, address: u32) -> (r: Option<u8>) {
        let a = address as u64;
        if self.in_range(a) {
            Some(self.byte_at(a))
        } else {
            None
        }
    }

    fn read_at_address_word(&self, address: u32) -> (r: Option<u16>) {
        let a = address as u64;
        if self.in_range(a + 1) {
            let hi = self.byte_at(a);
            let lo = self.byte_at(a + 1);
            Some((hi as u16) * 0x100 + (lo as u16))
        } else {
            None
        }
    }

    fn read_at_address_long(&self, address: u32) -> (r: Option<u32>) {
        let a = address as u64;
        if self.in_range(a + 3) {
            let b0 = self.byte_at(a);
            let b1 = self.byte_at(a + 1);
            let b2 = self.byte_at(a + 2);
            let b3 = self.byte_at(a + 3);
            Some((b0 as u32) * 0x100_0000 + (b1 as u32) * 0x1_0000 + (b2 as u32) * 0x100 + (
            b3 as u32))
        } else {
            None
        }
    }

    fn write_at_address_byte(&mut self, address: u32, data: u8) -> (r: Result<(), Fault>) {
        let a = address as u64;
        if self.in_range(a) {
            self.set_byte_at(a, data);
            Ok(())
        } else {
            Err(Fault::OutOfBounds)
        }
    }

    fn write_at_address_word(&mut self, address: u32, data: u16) -> (r: Result<(), Fault>) {
        let a = address as u64;
        if self.in_range(a + 1) {
            self.set_byte_at(a, (data / 0x100) as u8);
            self.set_byte_at(a + 1, (data % 0x100) as u8);
            Ok(())
        } else {
            Err(Fault::OutOfBounds)
        }
    }

    fn write_at_address_long(&mut self, address: u32, data: u32) -> (r: Result<(), Fault>) {
        let a = address as u64;
        if self.in_range(a + 3) {
            self.set_byte_at(a, (data / 0x100_0000) as u8);
            self.set_byte_at(a + 1, ((data / 0x1_0000) % 0x100) as u8);
            self.set_byte_at(a + 2, ((data / 0x100) % 0x100) as u8);
            self.set_byte_at(a + 3, (data % 0x100) as u8);
            Ok(())
        } else {
            Err(Fault::OutOfBounds)
        }
    }

    fn iter(&self, address: u32) -> (it: MemoryIter) {
        MemoryIter { next_address: address }
    }
}

} // verus!

