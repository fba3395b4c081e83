//! The memory port: byte reads and writes, with 16- and 32-bit accesses
//! composed from them most significant byte first.
use vstd::prelude::*;

verus! {

/// Whether `n` consecutive addresses from `addr` are all backed, without
/// running past the top of the address space.
pub open spec fn backed(m: Map<u32, u8>, addr: u32, n: int) -> bool {
    &&& addr + n <= 0x1_0000_0000
    &&& forall|k: int| 0 <= k < n ==> #[trigger] m.dom().contains((addr + k) as u32)
}

/// The 16-bit value whose high byte is at `addr` and low byte at `addr + 1`.
pub open spec fn half_at(m: Map<u32, u8>, addr: u32) -> int {
    m[addr] as int * 0x100 + m[(addr + 1) as u32] as int
}

/// The 32-bit value whose high half is at `addr` and low half at `addr + 2`.
pub open spec fn word_at(m: Map<u32, u8>, addr: u32) -> int {
    half_at(m, addr) * 0x1_0000 + half_at(m, (addr + 2) as u32)
}

/// The bytes after storing `d` at `addr`, high byte first.
pub open spec fn half_stored(m: Map<u32, u8>, addr: u32, d: u16) -> Map<u32, u8> {
    m.insert(addr, (d / 0x100) as u8).insert((addr + 1) as u32, (d % 0x100) as u8)
}

/// The bytes after storing `d` at `addr`, high half first.
pub open spec fn word_stored(m: Map<u32, u8>, addr: u32, d: u32) -> Map<u32, u8> {
    half_stored(
        half_stored(m, addr, (d / 0x1_0000) as u16),
        (addr + 2) as u32,
        (d % 0x1_0000) as u16,
    )
}

/// A store of bytes, each address read or written on its own. Only the
/// addresses in the domain of `bytes` may be accessed.
pub trait Memory: Sized {
    /// The byte held at each backed address.
    spec fn bytes(&self) -> Map<u32, u8>;

    fn is_mapped(&self, addr: u32) -> (r: bool)
        ensures
            r == self.bytes().dom().contains(addr),
    ;

    fn read_8(&mut self, addr: u32) -> (r: u8)
        requires
            old(self).bytes().dom().contains(addr),
        ensures
            r == old(self).bytes()[addr],
            final(self).bytes() == old(self).bytes(),
    ;

    fn write_8(&mut self, addr: u32, data: u8)
        requires
            old(self).bytes().dom().contains(addr),
        ensures
            final(self).bytes() == old(self).bytes().insert(addr, data),
    ;

    fn read_16(&mut self, addr: u32) -> (r: u16)
        requires
            backed(old(self).bytes(), addr, 2),
        ensures
            r == half_at(old(self).bytes(), addr),
            final(self).bytes() == old(self).bytes(),
    {
        assert(self.bytes().dom().contains((addr + 0) as u32));
        assert(self.bytes().dom().contains((addr + 1) as u32));
        let hi = self.read_8(addr);
        let lo = self.read_8(addr + 1);
        let r = ((hi as u16) << 8) | (lo as u16);
        assert(r == hi as int * 0x100 + lo as int) by (bit_vector)
            requires
                r == ((hi as u16) << 8) | (lo as u16),
        ;
        r
    }

    fn read_32(&mut self, addr: u32) -> (r: u32)
        requires
            backed(old(self).bytes(), addr, 4),
        ensures
            r == word_at(old(self).bytes(), addr),
            final(self).bytes() == old(self).bytes(),
    {
        let ghost m = self.bytes();
        assert(m.dom().contains((addr + 2) as u32));
        assert(m.dom().contains((addr + 3) as u32));
        assert(m.dom().contains(((addr + 2) as u32 + 1) as u32));
        assert(backed(m, (addr + 2) as u32, 2));
        let hi = self.read_16(addr);
        let lo = self.read_16(addr + 2);
        let r = ((hi as u32) << 16) | (lo as u32);
        assert(r == hi as int * 0x1_0000 + lo as int) by (bit_vector)
            requires
                r == ((hi as u32) << 16) | (lo as u32),
        ;
        r
    }

    fn write_16(&mut self, addr: u32, data: u16)
        requires
            backed(old(self).bytes(), addr, 2),
        ensures
            final(self).bytes() == half_stored(old(self).bytes(), addr, data),
    {
        assert(self.bytes().dom().contains((addr + 0) as u32));
        assert(self.bytes().dom().contains((addr + 1) as u32));
        let hi = (data >> 8) as u8;
        let lo = data as u8;
        assert(hi == (data / 0x100) as u8 && lo == (data % 0x100) as u8) by (bit_vector)
            requires
                hi == (data >> 8) as u8,
                lo == data as u8,
        ;
        self.write_8(addr, hi);
        self.write_8(addr + 1, lo);
    }

    fn write_32(&mut self, addr: u32, data: u32)
        requires
            backed(old(self).bytes(), addr, 4),
        ensures
            final(self).bytes() == word_stored(old(self).bytes(), addr, data),
    {
        let ghost m = self.bytes();
        assert(m.dom().contains((addr + 2) as u32));
        assert(m.dom().contains((addr + 3) as u32));
        assert(m.dom().contains(((addr + 2) as u32 + 1) as u32));
        let hi = (data >> 16) as u16;
        let lo = data as u16;
        assert(hi == (data / 0x1_0000) as u16 && lo == (data % 0x1_0000) as u16) by (bit_vector)
            requires
                hi == (data >> 16) as u16,
                lo == data as u16,
        ;
        self.write_16(addr, hi);
        assert(backed(self.bytes(), (addr + 2) as u32, 2));
        self.write_16(addr + 2, lo);
    }
}

/// Storing a word and reading it back at the same address gives the word, and
/// its bytes lie most significant first.
pub proof fn lemma_word_round_trip(m: Map<u32, u8>, addr: u32, d: u32)
    requires
        backed(m, addr, 4),
    ensures
        word_at(word_stored(m, addr, d), addr) == d,
        word_stored(m, addr, d)[addr] == d / 0x100_0000,
        word_stored(m, addr, d)[(addr + 1) as u32] == (d / 0x1_0000) % 0x100,
        word_stored(m, addr, d)[(addr + 2) as u32] == (d / 0x100) % 0x100,
        word_stored(m, addr, d)[(addr + 3) as u32] == d % 0x100,
{
    let s = word_stored(m, addr, d);
    let hi = (d / 0x1_0000) as u16;
    let lo = (d % 0x1_0000) as u16;
    assert(hi == d / 0x1_0000 && lo == d % 0x1_0000);
    let a1 = (addr + 1) as u32;
    let a2 = (addr + 2) as u32;
    let a3 = (addr + 3) as u32;
    assert(a1 != addr && a2 != addr && a3 != addr && a2 != a1 && a3 != a1 && a3 != a2);
    assert(((a2 + 1) as u32) == a3);
    assert(s[addr] == (hi / 0x100) as u8);
    assert(s[a1] == (hi % 0x100) as u8);
    assert(s[a2] == (lo / 0x100) as u8);
    assert(s[a3] == (lo % 0x100) as u8);
    assert(d / 0x1_0000 / 0x100 == d / 0x100_0000 && (d / 0x1_0000) % 0x100 < 0x100 && (d
        % 0x1_0000) / 0x100 == (d / 0x100) % 0x100 && (d % 0x1_0000) % 0x100 == d % 0x100 && (d
        / 0x100_0000) < 0x100 && (d / 0x1_0000 / 0x100) * 0x100 + (d / 0x1_0000) % 0x100 == d
        / 0x1_0000 && ((d % 0x1_0000) / 0x100) * 0x100 + d % 0x100 == d % 0x1_0000 && (d
        / 0x1_0000) * 0x1_0000 + d % 0x1_0000 == d) by (bit_vector);
}

/// Whether `n` consecutive addresses from `addr` are all backed in `mem`.
pub fn is_backed<M: Memory>(mem: &M, addr: u32, n: u32) -> (r: bool)
    ensures
        r == backed(mem.bytes(), addr, n as int),
{
    if addr as u64 + n as u64 > 0x1_0000_0000 {
        return false;
    }
    let mut k: u32 = 0;
    while k < n
        invariant
            k <= n,
            addr + n <= 0x1_0000_0000,
            forall|j: int| 0 <= j < k ==> #[trigger] mem.bytes().dom().contains((addr + j) as u32),
        decreases n - k,
    {
        if !mem.is_mapped(addr + k) {
            assert(!mem.bytes().dom().contains((addr + k as int) as u32));
            return false;
        }
        k = k + 1;
    }
    true
}

/// A RAM backing store: addresses 0 up to its size.
pub struct BasicRam {
    mem: Vec<u8>,
}

impl BasicRam {
    /// A RAM holding `image` from address 0, and nothing beyond it.
    pub fn new(image: Vec<u8>) -> (r: BasicRam)
        requires
            image@.len() <= 0x1_0000_0000,
        ensures
            r.bytes() == Map::new(
                |a: u32| (a as int) < image@.len(),
                |a: u32| image@[a as int],
            ),
    {
        BasicRam { mem: image }
    }
}

impl Memory for BasicRam {
    closed spec fn bytes(&self) -> Map<u32, u8> {
        Map::new(|a: u32| (a as int) < self.mem@.len(), |a: u32| self.mem@[a as int])
    }

    fn is_mapped(&self, addr: u32) -> (r: bool) {
        (addr as usize) < self.mem.len()
    }

    fn read_8(&mut self, addr: u32) -> (r: u8) {
        self.mem[addr as usize]
    }

    fn write_8(&mut self, addr: u32, data: u8) {
        self.mem.set(addr as usize, data);
        assert(self.bytes() =~= old(self).bytes().insert(addr, data));
    }
}

/// Routes every address to a single backing store spanning the whole range.
pub struct Bus<M: Memory> {
    ram: M,
}

impl<M: Memory> Bus<M> {
    pub fn new(ram: M) -> (r: Bus<M>)
        ensures
            r.bytes() == ram.bytes(),
    {
        Bus { ram }
    }
}

impl<M: Memory> Memory for Bus<M> {
    closed spec fn bytes(&self) -> Map<u32, u8> {
        self.ram.bytes()
    }

    fn is_mapped(&self, addr: u32) -> (r: bool) {
        self.ram.is_mapped(addr)
    }

    fn read_8(&mut self, addr: u32) -> (r: u8) {
        self.ram.read_8(addr)
    }

    fn write_8(&mut self, addr: u32, data: u8) {
        self.ram.write_8(addr, data);
    }
}

} // verus!
